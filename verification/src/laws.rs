//! What holds of the dispatcher and the table together, whatever the table
//! holds and whatever the user sends.

use vstd::prelude::*;
use crate::command::CommandView;
use crate::dispatch::{
    answered, created_reply, failure_reply, invalid_reply, lines_of, list_reply, removed_reply,
};
use crate::ident::{
    is_uuid_shaped, lemma_canonical_text_injective, lemma_canonical_text_shaped, uuid_parse,
    ExternalId,
};
use crate::store::{
    deleted, inserted, keeps, lemma_filter_no_duplicates, listed, of_chat, Record, StoreError,
};

verus! {

/// Filtering by a test and then by a stricter one is filtering by the
/// stricter one.
pub proof fn lemma_filter_twice<A>(s: Seq<A>, wide: spec_fn(A) -> bool, strict: spec_fn(A) -> bool)
    requires
        forall|x: A| #[trigger] strict(x) ==> wide(x),
    ensures
        s.filter(wide).filter(strict) == s.filter(strict),
    decreases s.len(),
{
    reveal(Seq::filter);
    if s.len() > 0 {
        let front = s.drop_last();
        lemma_filter_twice(front, wide, strict);
        if wide(s.last()) {
            front.filter(wide).lemma_filter_push(s.last(), strict);
        }
    }
}

/// A chat's listing names each identifier at most once, as long as the
/// table holds no link twice.
pub proof fn lemma_listing_without_repetition(rows: Seq<Record>, chat: i64)
    requires
        rows.no_duplicates(),
    ensures
        listed(rows, chat).no_duplicates(),
        lines_of(listed(rows, chat)).no_duplicates(),
{
    let links = rows.filter(of_chat(chat));
    let ids = listed(rows, chat);
    let lines = lines_of(ids);
    lemma_filter_no_duplicates(rows, of_chat(chat));
    assert forall|i: int, j: int| 0 <= i < ids.len() && 0 <= j < ids.len() && i != j implies ids[i]
        != ids[j] by {
        rows.lemma_filter_pred(of_chat(chat), i);
        rows.lemma_filter_pred(of_chat(chat), j);
        assert(links[i] != links[j]);
    }
    assert forall|i: int, j: int|
        0 <= i < lines.len() && 0 <= j < lines.len() && i != j implies lines[i] != lines[j] by {
        if lines[i] == lines[j] {
            lemma_canonical_text_injective(ids[i].bits, ids[j].bits);
        }
    }
}

/// A link of the table shows in its chat's listing, by identifier and by
/// line.
pub proof fn lemma_link_is_listed(rows: Seq<Record>, id: ExternalId, chat: i64)
    requires
        rows.contains(Record { external_id: id, chat_id: chat }),
    ensures
        listed(rows, chat).contains(id),
        lines_of(listed(rows, chat)).contains(id.text()),
{
    let record = Record { external_id: id, chat_id: chat };
    let links = rows.filter(of_chat(chat));
    let i = choose|i: int| 0 <= i < rows.len() && rows[i] == record;
    rows.lemma_filter_contains(of_chat(chat), i);
    let j = choose|j: int| 0 <= j < links.len() && links[j] == record;
    assert(listed(rows, chat)[j] == id);
    assert(lines_of(listed(rows, chat))[j] == id.text());
}

/// After `/add u` with a token `u` that reads as an identifier, `/list` in
/// the same chat changes nothing, replies with the chat's listing, and that
/// listing names the identifier exactly once: it holds the identifier and
/// its canonical text, and holds nothing twice.
pub proof fn law_add_then_list(rows: Seq<Record>, token: Seq<char>, chat: i64, fresh: ExternalId)
    requires
        rows.no_duplicates(),
        uuid_parse(token) is Some,
    ensures
        ({
            let id = ExternalId { bits: uuid_parse(token)->Some_0 };
            let after = answered(rows, CommandView::Add { rattle_id: token }, chat, fresh).0;
            let then = answered(after, CommandView::List, chat, fresh);
            &&& after == inserted(rows, id, chat)
            &&& then.0 == after
            &&& then.1 == list_reply(listed(after, chat))
            &&& listed(after, chat).contains(id)
            &&& listed(after, chat).no_duplicates()
            &&& lines_of(listed(after, chat)).contains(id.text())
            &&& lines_of(listed(after, chat)).no_duplicates()
        }),
{
    let id = ExternalId { bits: uuid_parse(token)->Some_0 };
    let record = Record { external_id: id, chat_id: chat };
    let after = inserted(rows, id, chat);
    if !rows.contains(record) {
        assert(after[rows.len() as int] == record);
    }
    lemma_link_is_listed(after, id, chat);
    lemma_listing_without_repetition(after, chat);
}

/// No command from one chat changes what another chat lists.
pub proof fn law_chats_are_apart(
    rows: Seq<Record>,
    command: CommandView,
    chat: i64,
    other: i64,
    fresh: ExternalId,
)
    requires
        chat != other,
    ensures
        listed(answered(rows, command, chat, fresh).0, other) == listed(rows, other),
{
    let after = answered(rows, command, chat, fresh).0;
    match command {
        CommandView::Add { rattle_id } => {
            if uuid_parse(rattle_id) is Some {
                lemma_insert_elsewhere(
                    rows,
                    ExternalId { bits: uuid_parse(rattle_id)->Some_0 },
                    chat,
                    other,
                );
            }
        },
        CommandView::New => {
            lemma_insert_elsewhere(rows, fresh, chat, other);
        },
        CommandView::Remove { rattle_id } => {
            lemma_filter_twice(rows, keeps(rattle_id, chat), of_chat(other));
        },
        _ => {},
    }
}

/// A link made in one chat does not show in another chat's listing.
pub proof fn lemma_insert_elsewhere(rows: Seq<Record>, id: ExternalId, chat: i64, other: i64)
    requires
        chat != other,
    ensures
        listed(inserted(rows, id, chat), other) == listed(rows, other),
{
    rows.lemma_filter_push(Record { external_id: id, chat_id: chat }, of_chat(other));
}

/// `/remove u` twice in a row replies "removed" both times, and the second
/// leaves the table as the first left it.
pub proof fn law_remove_twice(rows: Seq<Record>, token: Seq<char>, chat: i64, fresh: ExternalId)
    ensures
        ({
            let command = CommandView::Remove { rattle_id: token };
            let first = answered(rows, command, chat, fresh);
            let second = answered(first.0, command, chat, fresh);
            &&& first.0 == deleted(rows, token, chat)
            &&& first.1 == removed_reply(token)
            &&& second.0 == first.0
            &&& second.1 == removed_reply(token)
        }),
{
    lemma_filter_twice(rows, keeps(token, chat), keeps(token, chat));
}

/// After `/remove u` the chat's listing holds no identifier whose canonical
/// text is `u`.
pub proof fn law_removed_is_gone(rows: Seq<Record>, token: Seq<char>, chat: i64)
    ensures
        !lines_of(listed(deleted(rows, token, chat), chat)).contains(token),
{
    let after = deleted(rows, token, chat);
    let links = after.filter(of_chat(chat));
    let lines = lines_of(listed(after, chat));
    assert forall|i: int| 0 <= i < lines.len() implies lines[i] != token by {
        after.lemma_filter_pred(of_chat(chat), i);
        assert(links.contains(links[i]));
        after.lemma_filter_contains_rev(of_chat(chat), links[i]);
        let j = choose|j: int| 0 <= j < after.len() && after[j] == links[i];
        rows.lemma_filter_pred(keeps(token, chat), j);
    }
}

/// `/new` ties the chat to the identifier it drew, whose canonical text has
/// the shape of a UUID, and `/list` in the same chat names it exactly
/// once. The reply carries that text, unless the chat was tied to the very
/// identifier before: then the table refuses the link and the reply says so.
pub proof fn law_new_then_list(rows: Seq<Record>, chat: i64, fresh: ExternalId)
    requires
        rows.no_duplicates(),
    ensures
        ({
            let made = answered(rows, CommandView::New, chat, fresh);
            let then = answered(made.0, CommandView::List, chat, fresh);
            &&& is_uuid_shaped(fresh.text())
            &&& made.0 == inserted(rows, fresh, chat)
            &&& made.1 == if rows.contains(Record { external_id: fresh, chat_id: chat }) {
                failure_reply(StoreError::Duplicate.text())
            } else {
                created_reply(fresh)
            }
            &&& then.0 == made.0
            &&& then.1 == list_reply(listed(made.0, chat))
            &&& listed(made.0, chat).contains(fresh)
            &&& listed(made.0, chat).no_duplicates()
            &&& lines_of(listed(made.0, chat)).contains(fresh.text())
            &&& lines_of(listed(made.0, chat)).no_duplicates()
        }),
{
    let record = Record { external_id: fresh, chat_id: chat };
    let after = inserted(rows, fresh, chat);
    lemma_canonical_text_shaped(fresh.bits);
    if !rows.contains(record) {
        assert(after[rows.len() as int] == record);
    }
    lemma_link_is_listed(after, fresh, chat);
    lemma_listing_without_repetition(after, chat);
}

/// `/add` with a token that reads as no identifier leaves the table as it
/// is and replies that the token, which the reply repeats, looks like no
/// UUID.
pub proof fn law_invalid_token_writes_nothing(
    rows: Seq<Record>,
    token: Seq<char>,
    chat: i64,
    fresh: ExternalId,
)
    requires
        uuid_parse(token) is None,
    ensures
        answered(rows, CommandView::Add { rattle_id: token }, chat, fresh) == (
            rows,
            invalid_reply(token),
        ),
{
}

} // verus!
