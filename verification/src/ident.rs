//! External identifiers: 128-bit values with a canonical hyphenated text.

use vstd::prelude::*;

verus! {

/// A 128-bit identifier that a chat can be linked to.
#[derive(Clone, Copy, Debug, PartialEq, Eq, Structural)]
pub struct ExternalId {
    pub bits: u128,
}

/// The lower-case hexadecimal digit for `n`, where `0 <= n < 16`.
pub open spec fn hex_char(n: int) -> char {
    "0123456789abcdef"@[n]
}

/// The `k`-th hexadecimal digit of `bits`, counted from the most significant,
/// where `0 <= k < 32`.
pub open spec fn nibble(bits: u128, k: int) -> u128 {
    (bits >> ((4 * (31 - k)) as u128)) & 0xf
}

/// Whether position `i` of a canonical text holds a hyphen.
pub open spec fn is_hyphen_position(i: int) -> bool {
    i == 8 || i == 13 || i == 18 || i == 23
}

/// Which hexadecimal digit position `i` of a canonical text holds.
pub open spec fn digit_index(i: int) -> int {
    if i < 8 {
        i
    } else if i < 13 {
        i - 1
    } else if i < 18 {
        i - 2
    } else if i < 23 {
        i - 3
    } else {
        i - 4
    }
}

/// The canonical text of an identifier: 32 lower-case hexadecimal digits,
/// most significant first, in groups of 8, 4, 4, 4 and 12 joined by hyphens.
pub open spec fn canonical_text(bits: u128) -> Seq<char> {
    Seq::new(
        36,
        |i: int|
            if is_hyphen_position(i) {
                '-'
            } else {
                hex_char(nibble(bits, digit_index(i)) as int)
            },
    )
}

/// Whether `c` is a lower-case hexadecimal digit.
pub open spec fn is_hex_digit(c: char) -> bool {
    ('0' <= c <= '9') || ('a' <= c <= 'f')
}

/// Whether `text` has the shape of a canonical text: 36 characters, hyphens
/// after the groups of 8, 4, 4 and 4, lower-case hexadecimal digits elsewhere.
pub open spec fn is_uuid_shaped(text: Seq<char>) -> bool {
    text.len() == 36 && forall|i: int|
        0 <= i < 36 ==> if is_hyphen_position(i) {
            #[trigger] text[i] == '-'
        } else {
            is_hex_digit(text[i])
        }
}

/// The position in a canonical text of the `k`-th hexadecimal digit.
pub open spec fn digit_position(k: int) -> int {
    if k < 8 {
        k
    } else if k < 12 {
        k + 1
    } else if k < 16 {
        k + 2
    } else if k < 20 {
        k + 3
    } else {
        k + 4
    }
}

/// Every canonical text has the shape of one.
pub proof fn lemma_canonical_text_shaped(bits: u128)
    ensures
        is_uuid_shaped(canonical_text(bits)),
{
    reveal_strlit("0123456789abcdef");
    let text = canonical_text(bits);
    assert forall|i: int| 0 <= i < 36 implies if is_hyphen_position(i) {
        #[trigger] text[i] == '-'
    } else {
        is_hex_digit(text[i])
    } by {
        if !is_hyphen_position(i) {
            let shift = (4 * (31 - digit_index(i))) as u128;
            assert((bits >> shift) & 0xf < 16) by (bit_vector);
        }
    }
}

/// Two identifiers with the same canonical text have the same `k`-th digit.
proof fn lemma_same_digit(a: u128, b: u128, k: int)
    requires
        canonical_text(a) == canonical_text(b),
        0 <= k < 32,
    ensures
        nibble(a, k) == nibble(b, k),
{
    reveal_strlit("0123456789abcdef");
    let i = digit_position(k);
    assert(digit_index(i) == k && !is_hyphen_position(i));
    assert(canonical_text(a)[i] == hex_char(nibble(a, k) as int));
    assert(canonical_text(b)[i] == hex_char(nibble(b, k) as int));
    let shift = (4 * (31 - k)) as u128;
    assert((a >> shift) & 0xf < 16) by (bit_vector);
    assert((b >> shift) & 0xf < 16) by (bit_vector);
}

/// The canonical text tells identifiers apart: two values with the same
/// text are the same value.
pub proof fn lemma_canonical_text_injective(a: u128, b: u128)
    requires
        canonical_text(a) == canonical_text(b),
    ensures
        a == b,
{
    assert forall|k: int| 0 <= k < 32 implies nibble(a, k) == nibble(b, k) by {
        lemma_same_digit(a, b, k);
    }
    assert(nibble(a, 0) == nibble(b, 0) && nibble(a, 1) == nibble(b, 1) && nibble(a, 2) == nibble(
        b,
        2,
    ) && nibble(a, 3) == nibble(b, 3) && nibble(a, 4) == nibble(b, 4) && nibble(a, 5) == nibble(
        b,
        5,
    ) && nibble(a, 6) == nibble(b, 6) && nibble(a, 7) == nibble(b, 7));
    assert(nibble(a, 8) == nibble(b, 8) && nibble(a, 9) == nibble(b, 9) && nibble(a, 10) == nibble(
        b,
        10,
    ) && nibble(a, 11) == nibble(b, 11) && nibble(a, 12) == nibble(b, 12) && nibble(a, 13)
        == nibble(b, 13) && nibble(a, 14) == nibble(b, 14) && nibble(a, 15) == nibble(b, 15));
    assert(nibble(a, 16) == nibble(b, 16) && nibble(a, 17) == nibble(b, 17) && nibble(a, 18)
        == nibble(b, 18) && nibble(a, 19) == nibble(b, 19) && nibble(a, 20) == nibble(b, 20)
        && nibble(a, 21) == nibble(b, 21) && nibble(a, 22) == nibble(b, 22) && nibble(a, 23)
        == nibble(b, 23));
    assert(nibble(a, 24) == nibble(b, 24) && nibble(a, 25) == nibble(b, 25) && nibble(a, 26)
        == nibble(b, 26) && nibble(a, 27) == nibble(b, 27) && nibble(a, 28) == nibble(b, 28)
        && nibble(a, 29) == nibble(b, 29) && nibble(a, 30) == nibble(b, 30) && nibble(a, 31)
        == nibble(b, 31));
    assert(a == b) by (bit_vector)
        requires
            (a >> 124) & 0xf == (b >> 124) & 0xf,
            (a >> 120) & 0xf == (b >> 120) & 0xf,
            (a >> 116) & 0xf == (b >> 116) & 0xf,
            (a >> 112) & 0xf == (b >> 112) & 0xf,
            (a >> 108) & 0xf == (b >> 108) & 0xf,
            (a >> 104) & 0xf == (b >> 104) & 0xf,
            (a >> 100) & 0xf == (b >> 100) & 0xf,
            (a >> 96) & 0xf == (b >> 96) & 0xf,
            (a >> 92) & 0xf == (b >> 92) & 0xf,
            (a >> 88) & 0xf == (b >> 88) & 0xf,
            (a >> 84) & 0xf == (b >> 84) & 0xf,
            (a >> 80) & 0xf == (b >> 80) & 0xf,
            (a >> 76) & 0xf == (b >> 76) & 0xf,
            (a >> 72) & 0xf == (b >> 72) & 0xf,
            (a >> 68) & 0xf == (b >> 68) & 0xf,
            (a >> 64) & 0xf == (b >> 64) & 0xf,
            (a >> 60) & 0xf == (b >> 60) & 0xf,
            (a >> 56) & 0xf == (b >> 56) & 0xf,
            (a >> 52) & 0xf == (b >> 52) & 0xf,
            (a >> 48) & 0xf == (b >> 48) & 0xf,
            (a >> 44) & 0xf == (b >> 44) & 0xf,
            (a >> 40) & 0xf == (b >> 40) & 0xf,
            (a >> 36) & 0xf == (b >> 36) & 0xf,
            (a >> 32) & 0xf == (b >> 32) & 0xf,
            (a >> 28) & 0xf == (b >> 28) & 0xf,
            (a >> 24) & 0xf == (b >> 24) & 0xf,
            (a >> 20) & 0xf == (b >> 20) & 0xf,
            (a >> 16) & 0xf == (b >> 16) & 0xf,
            (a >> 12) & 0xf == (b >> 12) & 0xf,
            (a >> 8) & 0xf == (b >> 8) & 0xf,
            (a >> 4) & 0xf == (b >> 4) & 0xf,
            (a >> 0) & 0xf == (b >> 0) & 0xf,
    ;
}

/// Whether `bits` carries the marks of a random identifier: version 4 and
/// the RFC 4122 variant.
pub open spec fn is_random_stamped(bits: u128) -> bool {
    (bits >> 76) & 0xf == 4 && (bits >> 62) & 0x3 == 2
}

/// What `uuid::Uuid::parse_str` makes of a text: the 128-bit value it reads,
/// or `None` where it rejects the text.
pub uninterp spec fn uuid_parse(text: Seq<char>) -> Option<u128>;

/// Calls `uuid::Uuid::parse_str`, which reads the hyphenated, the simple and
/// the URN form in either case, and hands back the value as `as_u128` packs
/// it. The contract only names the outcome.
#[verifier::external_body]
pub(crate) fn parse_uuid(text: &str) -> (out: Option<u128>)
    ensures
        out == uuid_parse(text@),
{
    match uuid::Uuid::parse_str(text) {
        Ok(id) => Some(id.as_u128()),
        Err(_) => None,
    }
}

/// Calls `uuid::Uuid::new_v4`, which draws sixteen bytes from the operating
/// system and stamps them as a random identifier: version 4 in the high half
/// of the seventh byte, the RFC 4122 variant in the top two bits of the
/// ninth. The contract claims those two marks and nothing else of the value.
/// The call panics where the system has no randomness to give.
#[verifier::external_body]
pub(crate) fn random_uuid() -> (out: u128)
    ensures
        is_random_stamped(out),
{
    uuid::Uuid::new_v4().as_u128()
}

/// Formats through `uuid::Uuid`'s `Display`, which writes the lower-case
/// hyphenated form of the big-endian value. The contract states that form,
/// and that `parse_str` reads it back as the same value.
#[verifier::external_body]
pub(crate) fn format_uuid(bits: u128) -> (out: String)
    ensures
        out@ == canonical_text(bits),
        uuid_parse(out@) == Some(bits),
{
    uuid::Uuid::from_u128(bits).to_string()
}

impl ExternalId {
    /// The identifier's canonical text.
    pub open spec fn text(self) -> Seq<char> {
        canonical_text(self.bits)
    }

    /// Reads a token as an identifier, in any form that the parser of
    /// identifiers accepts.
    pub fn parse(token: &str) -> (out: Option<ExternalId>)
        ensures
            out == identifier_of(uuid_parse(token@)),
    {
        match parse_uuid(token) {
            Some(bits) => Some(ExternalId { bits }),
            None => None,
        }
    }

    /// A fresh random identifier.
    pub fn generate() -> (out: ExternalId)
        ensures
            is_random_stamped(out.bits),
    {
        ExternalId { bits: random_uuid() }
    }

    /// The identifier's canonical text, which reads back as the identifier.
    pub fn to_text(&self) -> (out: String)
        ensures
            out@ == self.text(),
            uuid_parse(out@) == Some(self.bits),
    {
        format_uuid(self.bits)
    }
}

/// The identifier that a parsed value stands for.
pub open spec fn identifier_of(parsed: Option<u128>) -> Option<ExternalId> {
    match parsed {
        Some(bits) => Some(ExternalId { bits }),
        None => None,
    }
}

} // verus!
