use rattlehead_bot::ident::ExternalId;

const BITS: u128 = 0x936da01f9abd4d9d80c702af85c822a8;
const TEXT: &str = "936da01f-9abd-4d9d-80c7-02af85c822a8";

#[test]
fn parses_the_hyphenated_form() {
    assert_eq!(ExternalId::parse(TEXT), Some(ExternalId { bits: BITS }));
}

#[test]
fn parses_upper_case_and_the_simple_form() {
    assert_eq!(
        ExternalId::parse("936DA01F-9ABD-4D9D-80C7-02AF85C822A8"),
        Some(ExternalId { bits: BITS })
    );
    assert_eq!(
        ExternalId::parse("936da01f9abd4d9d80c702af85c822a8"),
        Some(ExternalId { bits: BITS })
    );
    assert_eq!(
        ExternalId::parse("urn:uuid:936da01f-9abd-4d9d-80c7-02af85c822a8"),
        Some(ExternalId { bits: BITS })
    );
}

#[test]
fn refuses_what_is_no_identifier() {
    assert_eq!(ExternalId::parse("not-a-uuid"), None);
    assert_eq!(ExternalId::parse(""), None);
    assert_eq!(ExternalId::parse("936da01f-9abd-4d9d-80c7-02af85c822a"), None);
    assert_eq!(ExternalId::parse("936da01f-9abd-4d9d-80c7-02af85c822ag"), None);
    assert_eq!(ExternalId::parse("936da01f-9abd-4d9d-80c7-02af85c822a8 "), None);
    assert_eq!(ExternalId::parse("żółw"), None);
}

#[test]
fn writes_the_canonical_text() {
    assert_eq!(ExternalId { bits: BITS }.to_text(), TEXT);
    assert_eq!(ExternalId { bits: 0 }.to_text(), "00000000-0000-0000-0000-000000000000");
    assert_eq!(ExternalId { bits: 1 }.to_text(), "00000000-0000-0000-0000-000000000001");
    assert_eq!(
        ExternalId { bits: 0xf000_0000_0000_0000_0000_0000_0000_0000 }.to_text(),
        "f0000000-0000-0000-0000-000000000000"
    );
    assert_eq!(ExternalId { bits: u128::MAX }.to_text(), "ffffffff-ffff-ffff-ffff-ffffffffffff");
}

#[test]
fn the_canonical_text_reads_back() {
    for bits in [0u128, 1, BITS, u128::MAX, 0x0123_4567_89ab_cdef_0123_4567_89ab_cdef] {
        let id = ExternalId { bits };
        assert_eq!(ExternalId::parse(&id.to_text()), Some(id));
    }
}

#[test]
fn a_generated_identifier_is_stamped_as_random() {
    let id = ExternalId::generate();
    assert_eq!((id.bits >> 76) & 0xf, 4);
    assert_eq!((id.bits >> 62) & 0x3, 2);
}

#[test]
fn a_generated_identifier_has_the_shape_of_a_uuid() {
    let text = ExternalId::generate().to_text();
    let chars: Vec<char> = text.chars().collect();
    assert_eq!(chars.len(), 36);
    for (i, c) in chars.iter().enumerate() {
        if i == 8 || i == 13 || i == 18 || i == 23 {
            assert_eq!(*c, '-');
        } else {
            assert!(matches!(*c, '0'..='9' | 'a'..='f'));
        }
    }
    assert_eq!(chars[14], '4');
}

#[test]
fn generated_identifiers_differ() {
    assert_ne!(ExternalId::generate(), ExternalId::generate());
}
