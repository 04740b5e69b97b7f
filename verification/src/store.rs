//! The table of links between chats and external identifiers.

use vstd::prelude::*;
use crate::ident::ExternalId;
use crate::text::same_text;
use vstd::string::StringExecFns;

verus! {

/// One link: this chat is tied to this external identifier.
#[derive(Clone, Copy, Debug, PartialEq, Eq, Structural)]
pub struct Record {
    pub external_id: ExternalId,
    pub chat_id: i64,
}

/// Why the table refused a request.
#[derive(Clone, Copy, Debug, PartialEq, Eq, Structural)]
pub enum StoreError {
    /// The chat is already tied to the identifier.
    Duplicate,
}

/// What the dispatcher asks of the table. Each request is one statement.
#[derive(Clone, Debug, PartialEq, Eq)]
pub enum StoreRequest {
    /// Tie the chat to the identifier that the user's `token` reads as.
    Link { external_id: ExternalId, chat_id: i64, token: String },
    /// Tie the chat to a freshly made identifier.
    Create { external_id: ExternalId, chat_id: i64 },
    /// Drop the link that `token` names in the chat.
    Unlink { token: String, chat_id: i64 },
    /// Give the identifiers tied to the chat.
    List { chat_id: i64 },
}

/// What the table answers.
#[derive(Clone, Debug, PartialEq, Eq)]
pub enum StoreOutcome {
    /// The statement ran and gave no rows.
    Done,
    /// The statement ran and gave these identifiers.
    Rows(Vec<ExternalId>),
    /// The statement failed, for the reason that the text gives.
    Failed(String),
}

/// A request as contracts speak of it.
pub ghost enum StoreRequestView {
    Link { external_id: ExternalId, chat_id: i64, token: Seq<char> },
    Create { external_id: ExternalId, chat_id: i64 },
    Unlink { token: Seq<char>, chat_id: i64 },
    List { chat_id: i64 },
}

/// An outcome as contracts speak of it.
pub ghost enum StoreOutcomeView {
    Done,
    Rows(Seq<ExternalId>),
    Failed(Seq<char>),
}

impl View for StoreRequest {
    type V = StoreRequestView;

    open spec fn view(&self) -> StoreRequestView {
        match self {
            StoreRequest::Link { external_id, chat_id, token } => StoreRequestView::Link {
                external_id: *external_id,
                chat_id: *chat_id,
                token: token@,
            },
            StoreRequest::Create { external_id, chat_id } => StoreRequestView::Create {
                external_id: *external_id,
                chat_id: *chat_id,
            },
            StoreRequest::Unlink { token, chat_id } => StoreRequestView::Unlink {
                token: token@,
                chat_id: *chat_id,
            },
            StoreRequest::List { chat_id } => StoreRequestView::List { chat_id: *chat_id },
        }
    }
}

impl View for StoreOutcome {
    type V = StoreOutcomeView;

    open spec fn view(&self) -> StoreOutcomeView {
        match self {
            StoreOutcome::Done => StoreOutcomeView::Done,
            StoreOutcome::Rows(ids) => StoreOutcomeView::Rows(ids@),
            StoreOutcome::Failed(reason) => StoreOutcomeView::Failed(reason@),
        }
    }
}

/// The table after `request`.
pub open spec fn applied(rows: Seq<Record>, request: StoreRequestView) -> Seq<Record> {
    match request {
        StoreRequestView::Link { external_id, chat_id, .. } => inserted(rows, external_id, chat_id),
        StoreRequestView::Create { external_id, chat_id } => inserted(rows, external_id, chat_id),
        StoreRequestView::Unlink { token, chat_id } => deleted(rows, token, chat_id),
        StoreRequestView::List { .. } => rows,
    }
}

/// What the table answers to `request`. Tying a chat to an identifier that
/// it is tied to already fails; dropping a link that is not there does not.
pub open spec fn outcome_of(rows: Seq<Record>, request: StoreRequestView) -> StoreOutcomeView {
    match request {
        StoreRequestView::Link { external_id, chat_id, .. } => insert_outcome(
            rows,
            external_id,
            chat_id,
        ),
        StoreRequestView::Create { external_id, chat_id } => insert_outcome(
            rows,
            external_id,
            chat_id,
        ),
        StoreRequestView::Unlink { .. } => StoreOutcomeView::Done,
        StoreRequestView::List { chat_id } => StoreOutcomeView::Rows(listed(rows, chat_id)),
    }
}

/// What the table answers to a request to tie `chat` to `id`.
pub open spec fn insert_outcome(rows: Seq<Record>, id: ExternalId, chat: i64) -> StoreOutcomeView {
    if rows.contains(Record { external_id: id, chat_id: chat }) {
        StoreOutcomeView::Failed(StoreError::Duplicate.text())
    } else {
        StoreOutcomeView::Done
    }
}

/// Whether `record` is the link that `token` names in `chat`: the link of
/// that chat whose identifier has `token` as its canonical text.
pub open spec fn names(record: Record, token: Seq<char>, chat: i64) -> bool {
    record.chat_id == chat && record.external_id.text() == token
}

/// The test that keeps every link but the one that `token` names in `chat`.
pub open spec fn keeps(token: Seq<char>, chat: i64) -> spec_fn(Record) -> bool {
    |record: Record| !names(record, token, chat)
}

/// The test that keeps the links of `chat`.
pub open spec fn of_chat(chat: i64) -> spec_fn(Record) -> bool {
    |record: Record| record.chat_id == chat
}

/// The identifier of a link.
pub open spec fn id_of() -> spec_fn(Record) -> ExternalId {
    |record: Record| record.external_id
}

/// The table after a request to tie `chat` to `id`: the link is appended
/// unless the table holds it already.
pub open spec fn inserted(rows: Seq<Record>, id: ExternalId, chat: i64) -> Seq<Record> {
    let record = Record { external_id: id, chat_id: chat };
    if rows.contains(record) {
        rows
    } else {
        rows.push(record)
    }
}

/// The table after a request to drop what `token` names in `chat`.
pub open spec fn deleted(rows: Seq<Record>, token: Seq<char>, chat: i64) -> Seq<Record> {
    rows.filter(keeps(token, chat))
}

/// The identifiers tied to `chat`, in the order in which they were tied.
pub open spec fn listed(rows: Seq<Record>, chat: i64) -> Seq<ExternalId> {
    rows.filter(of_chat(chat)).map_values(id_of())
}

/// A table of links held in memory. No link occurs twice, and links stay in
/// the order in which they were made.
pub struct RecordStore {
    rows: Vec<Record>,
}

impl View for RecordStore {
    type V = Seq<Record>;

    closed spec fn view(&self) -> Seq<Record> {
        self.rows@
    }
}

impl StoreError {
    /// The text that tells a user of the failure.
    pub open spec fn text(self) -> Seq<char> {
        match self {
            StoreError::Duplicate => "this ID is already linked to the chat"@,
        }
    }

    /// The text that tells a user of the failure.
    pub fn message(self) -> (out: &'static str)
        ensures
            out@ == self.text(),
    {
        match self {
            StoreError::Duplicate => "this ID is already linked to the chat",
        }
    }
}

impl RecordStore {
    /// Whether the table is in order: no link occurs twice.
    pub open spec fn wf(&self) -> bool {
        self@.no_duplicates()
    }

    /// An empty table.
    pub fn new() -> (out: RecordStore)
        ensures
            out@ == Seq::<Record>::empty(),
            out.wf(),
    {
        RecordStore { rows: Vec::new() }
    }

    /// The number of links.
    pub fn len(&self) -> (out: usize)
        ensures
            out == self@.len(),
    {
        self.rows.len()
    }

    /// Whether `chat` is tied to `id`.
    pub fn contains(&self, id: ExternalId, chat: i64) -> (out: bool)
        ensures
            out == self@.contains(Record { external_id: id, chat_id: chat }),
    {
        let record = Record { external_id: id, chat_id: chat };
        let mut i: usize = 0;
        while i < self.rows.len()
            invariant
                i <= self.rows@.len(),
                record == (Record { external_id: id, chat_id: chat }),
                forall|j: int| 0 <= j < i ==> self.rows@[j] != record,
            decreases self.rows@.len() - i,
        {
            if self.rows[i] == record {
                proof {
                    assert(self@[i as int] == record);
                }
                return true;
            }
            i = i + 1;
        }
        false
    }

    /// Ties `chat` to `id`. A link that the table holds already is refused
    /// and the table stays as it is.
    pub fn insert(&mut self, id: ExternalId, chat: i64) -> (out: Result<(), StoreError>)
        requires
            old(self).wf(),
        ensures
            final(self).wf(),
            final(self)@ == inserted(old(self)@, id, chat),
            out is Err <==> old(self)@.contains(Record { external_id: id, chat_id: chat }),
            out is Err ==> out->Err_0 == StoreError::Duplicate,
    {
        if self.contains(id, chat) {
            Err(StoreError::Duplicate)
        } else {
            self.rows.push(Record { external_id: id, chat_id: chat });
            Ok(())
        }
    }

    /// Drops the link that `token` names in `chat`, if there is one, and says
    /// how many links were dropped.
    pub fn delete(&mut self, token: &str, chat: i64) -> (out: usize)
        requires
            old(self).wf(),
        ensures
            final(self).wf(),
            final(self)@ == deleted(old(self)@, token@, chat),
            out == old(self)@.len() - final(self)@.len(),
    {
        let mut kept: Vec<Record> = Vec::new();
        let mut i: usize = 0;
        while i < self.rows.len()
            invariant
                i <= self.rows@.len(),
                kept@ == self.rows@.take(i as int).filter(keeps(token@, chat)),
            decreases self.rows@.len() - i,
        {
            let record = self.rows[i];
            let text = record.external_id.to_text();
            let named = record.chat_id == chat && same_text(text.as_str(), token);
            proof {
                let before = self.rows@.take(i as int);
                assert(self.rows@.take(i + 1) =~= before.push(record));
                before.lemma_filter_push(record, keeps(token@, chat));
            }
            if !named {
                kept.push(record);
            }
            i = i + 1;
        }
        proof {
            assert(self.rows@.take(i as int) =~= self.rows@);
            lemma_filter_no_duplicates(self.rows@, keeps(token@, chat));
            self.rows@.lemma_filter_len(keeps(token@, chat));
        }
        let dropped = self.rows.len() - kept.len();
        self.rows = kept;
        dropped
    }

    /// Runs one request against the table.
    pub fn execute(&mut self, request: &StoreRequest) -> (out: StoreOutcome)
        requires
            old(self).wf(),
        ensures
            final(self).wf(),
            final(self)@ == applied(old(self)@, request@),
            out@ == outcome_of(old(self)@, request@),
    {
        match request {
            StoreRequest::Link { external_id, chat_id, .. } => self.try_insert(
                *external_id,
                *chat_id,
            ),
            StoreRequest::Create { external_id, chat_id } => self.try_insert(
                *external_id,
                *chat_id,
            ),
            StoreRequest::Unlink { token, chat_id } => {
                self.delete(token.as_str(), *chat_id);
                StoreOutcome::Done
            },
            StoreRequest::List { chat_id } => StoreOutcome::Rows(self.select(*chat_id)),
        }
    }

    /// Ties `chat` to `id` and reports as a request does.
    fn try_insert(&mut self, id: ExternalId, chat: i64) -> (out: StoreOutcome)
        requires
            old(self).wf(),
        ensures
            final(self).wf(),
            final(self)@ == inserted(old(self)@, id, chat),
            out@ == insert_outcome(old(self)@, id, chat),
    {
        match self.insert(id, chat) {
            Ok(()) => StoreOutcome::Done,
            Err(error) => StoreOutcome::Failed(String::from_str(error.message())),
        }
    }

    /// The identifiers tied to `chat`, in the order in which they were tied.
    pub fn select(&self, chat: i64) -> (out: Vec<ExternalId>)
        ensures
            out@ == listed(self@, chat),
    {
        let mut out: Vec<ExternalId> = Vec::new();
        let mut i: usize = 0;
        while i < self.rows.len()
            invariant
                i <= self.rows@.len(),
                out@ == listed(self.rows@.take(i as int), chat),
            decreases self.rows@.len() - i,
        {
            let record = self.rows[i];
            proof {
                let before = self.rows@.take(i as int);
                assert(self.rows@.take(i + 1) =~= before.push(record));
                before.lemma_filter_push(record, of_chat(chat));
                before.filter(of_chat(chat)).lemma_push_map_commute(id_of(), record);
            }
            if record.chat_id == chat {
                out.push(record.external_id);
            }
            i = i + 1;
        }
        proof {
            assert(self.rows@.take(i as int) =~= self.rows@);
        }
        out
    }
}

/// What a filter keeps of a sequence without repetition holds no repetition.
pub proof fn lemma_filter_no_duplicates<A>(s: Seq<A>, keep: spec_fn(A) -> bool)
    requires
        s.no_duplicates(),
    ensures
        s.filter(keep).no_duplicates(),
    decreases s.len(),
{
    reveal(Seq::filter);
    if s.len() > 0 {
        let front = s.drop_last();
        lemma_filter_no_duplicates(front, keep);
        if keep(s.last()) {
            let kept = front.filter(keep);
            assert forall|i: int| 0 <= i < kept.len() implies kept[i] != s.last() by {
                front.lemma_filter_contains_rev(keep, kept[i]);
                let j = choose|j: int| 0 <= j < front.len() && front[j] == kept[i];
                assert(s[j] == kept[i]);
            }
        }
    }
}

} // verus!
