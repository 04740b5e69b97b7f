//! What each command asks of the table of links and which reply it earns.

use vstd::prelude::*;
use vstd::string::StringExecFns;
use crate::command::{help_text, Command, CommandView, Kind, ParseError, ParseErrorView, parse_spec};
use crate::ident::{identifier_of, is_random_stamped, uuid_parse, ExternalId};
use crate::store::{
    applied, outcome_of, Record, RecordStore, StoreOutcome, StoreOutcomeView, StoreRequest,
    StoreRequestView,
};

verus! {

/// What the dispatcher does next for a command.
#[derive(Clone, Debug, PartialEq, Eq)]
pub enum Step {
    /// Nothing is asked of the table: send this reply.
    Reply(String),
    /// Put this request to the table, then reply as its outcome demands.
    Ask(StoreRequest),
}

/// A step as contracts speak of it.
pub ghost enum StepView {
    Reply(Seq<char>),
    Ask(StoreRequestView),
}

impl View for Step {
    type V = StepView;

    open spec fn view(&self) -> StepView {
        match self {
            Step::Reply(text) => StepView::Reply(text@),
            Step::Ask(request) => StepView::Ask(request@),
        }
    }
}

/// The greeting: a welcome, then the help text.
pub open spec fn welcome_text() -> Seq<char> {
    "Hi! Weclome to the RattleHead bot!\n"@ + help_text()
}

/// The reply to a token that is no identifier.
pub open spec fn invalid_reply(token: Seq<char>) -> Seq<char> {
    token + " looks like not UUID."@
}

/// The reply to a link made from the user's token.
pub open spec fn added_reply(token: Seq<char>) -> Seq<char> {
    "ID: "@ + token + " added."@
}

/// The reply to a link dropped.
pub open spec fn removed_reply(token: Seq<char>) -> Seq<char> {
    "ID: "@ + token + " removed"@
}

/// The reply to a link made to a fresh identifier.
pub open spec fn created_reply(id: ExternalId) -> Seq<char> {
    "New ID: "@ + id.text() + ". Link"@
}

/// The reply to a failure of the table, which carries the table's reason.
pub open spec fn failure_reply(reason: Seq<char>) -> Seq<char> {
    "Something goes wrong.\n "@ + reason
}

/// The canonical text of an identifier.
pub open spec fn text_of() -> spec_fn(ExternalId) -> Seq<char> {
    |id: ExternalId| id.text()
}

/// The lines of a listing: the canonical text of each identifier, in order.
pub open spec fn lines_of(ids: Seq<ExternalId>) -> Seq<Seq<char>> {
    ids.map_values(text_of())
}

/// The lines joined by line feeds, with none at the end.
pub open spec fn joined(lines: Seq<Seq<char>>) -> Seq<char>
    decreases lines.len(),
{
    if lines.len() == 0 {
        Seq::empty()
    } else if lines.len() == 1 {
        lines[0]
    } else {
        joined(lines.drop_last()) + "\n"@ + lines.last()
    }
}

/// The body of a listing: its lines, joined.
pub open spec fn list_body(ids: Seq<ExternalId>) -> Seq<char> {
    joined(lines_of(ids))
}

/// The reply to a listing: a heading, then the body.
pub open spec fn list_reply(ids: Seq<ExternalId>) -> Seq<char> {
    "ID List:\n "@ + list_body(ids)
}

/// The reply to a command that came with the wrong number of arguments: a
/// complaint, then the command's line of the help text.
pub open spec fn usage_reply(kind: Kind) -> Seq<char> {
    "Wrong number of arguments.\n"@ + kind.line()
}

/// The step for `/add token`, given what the token reads as. A token that
/// is no identifier is answered at once and the table is not asked.
pub open spec fn add_planned(token: Seq<char>, parsed: Option<ExternalId>, chat: i64) -> StepView {
    match parsed {
        Some(id) => StepView::Ask(
            StoreRequestView::Link { external_id: id, chat_id: chat, token: token },
        ),
        None => StepView::Reply(invalid_reply(token)),
    }
}

/// The step for `/new`, given the fresh identifier.
pub open spec fn new_planned(fresh: ExternalId, chat: i64) -> StepView {
    StepView::Ask(StoreRequestView::Create { external_id: fresh, chat_id: chat })
}

/// The step for a command from `chat`, where `fresh` is the identifier that
/// `/new` would tie.
pub open spec fn planned(command: CommandView, chat: i64, fresh: ExternalId) -> StepView {
    match command {
        CommandView::Help => StepView::Reply(help_text()),
        CommandView::Start => StepView::Reply(welcome_text()),
        CommandView::Add { rattle_id } => add_planned(
            rattle_id,
            identifier_of(uuid_parse(rattle_id)),
            chat,
        ),
        CommandView::Remove { rattle_id } => StepView::Ask(
            StoreRequestView::Unlink { token: rattle_id, chat_id: chat },
        ),
        CommandView::List => StepView::Ask(StoreRequestView::List { chat_id: chat }),
        CommandView::New => new_planned(fresh, chat),
    }
}

/// The reply that `outcome` earns for `request`. A failure is told with its
/// reason, whatever the request. A listing without rows has an empty body.
pub open spec fn reply_for(request: StoreRequestView, outcome: StoreOutcomeView) -> Seq<char> {
    match outcome {
        StoreOutcomeView::Failed(reason) => failure_reply(reason),
        _ => match request {
            StoreRequestView::Link { token, .. } => added_reply(token),
            StoreRequestView::Create { external_id, .. } => created_reply(external_id),
            StoreRequestView::Unlink { token, .. } => removed_reply(token),
            StoreRequestView::List { .. } => match outcome {
                StoreOutcomeView::Rows(ids) => list_reply(ids),
                _ => list_reply(Seq::empty()),
            },
        },
    }
}

/// The table and the reply after `step` was taken on `rows`.
pub open spec fn taken(rows: Seq<Record>, step: StepView) -> (Seq<Record>, Seq<char>) {
    match step {
        StepView::Reply(text) => (rows, text),
        StepView::Ask(request) => (
            applied(rows, request),
            reply_for(request, outcome_of(rows, request)),
        ),
    }
}

/// The table and the reply after `command` from `chat` was answered on
/// `rows`, where `fresh` is the identifier that `/new` would tie.
pub open spec fn answered(rows: Seq<Record>, command: CommandView, chat: i64, fresh: ExternalId) -> (
    Seq<Record>,
    Seq<char>,
) {
    taken(rows, planned(command, chat, fresh))
}

/// The step for a message that was read with `parsed`: the command's own
/// step, a usage error where the number of arguments is wrong, and none
/// where the message is no command of this bot.
pub open spec fn decided(
    parsed: Result<CommandView, ParseErrorView>,
    chat: i64,
    fresh: ExternalId,
) -> Option<StepView> {
    match parsed {
        Ok(command) => Some(planned(command, chat, fresh)),
        Err(ParseErrorView::TooFewArguments { command, .. }) => Some(
            StepView::Reply(usage_reply(command)),
        ),
        Err(ParseErrorView::TooManyArguments { command, .. }) => Some(
            StepView::Reply(usage_reply(command)),
        ),
        Err(_) => None,
    }
}

/// The table and what is sent back after a message that was read with
/// `parsed`: a message without a step leaves the table alone and earns no
/// reply.
pub open spec fn reaction(
    rows: Seq<Record>,
    parsed: Result<CommandView, ParseErrorView>,
    chat: i64,
    fresh: ExternalId,
) -> (Seq<Record>, Option<Seq<char>>) {
    match decided(parsed, chat, fresh) {
        Some(step) => (taken(rows, step).0, Some(taken(rows, step).1)),
        None => (rows, None),
    }
}

/// The canonical texts of `ids`, one to a line.
pub fn join_ids(ids: &Vec<ExternalId>) -> (out: String)
    ensures
        out@ == list_body(ids@),
{
    let mut out = String::new();
    let mut i: usize = 0;
    while i < ids.len()
        invariant
            i <= ids@.len(),
            out@ == list_body(ids@.take(i as int)),
        decreases ids@.len() - i,
    {
        let text = ids[i].to_text();
        proof {
            let before = lines_of(ids@.take(i as int));
            let now = lines_of(ids@.take(i + 1));
            assert(now.drop_last() =~= before);
            assert(now.last() == ids@[i as int].text());
            if i == 0 {
                assert(out@ + text@ =~= text@);
            }
        }
        if i > 0 {
            out.append("\n");
        }
        out.append(text.as_str());
        i = i + 1;
    }
    proof {
        assert(ids@.take(i as int) =~= ids@);
    }
    out
}

/// The step for `/add token`, given what the token reads as.
pub fn add_step(token: &str, parsed: Option<ExternalId>, chat_id: i64) -> (out: Step)
    ensures
        out@ == add_planned(token@, parsed, chat_id),
{
    match parsed {
        Some(external_id) => Step::Ask(
            StoreRequest::Link { external_id, chat_id, token: String::from_str(token) },
        ),
        None => {
            let mut text = String::from_str(token);
            text.append(" looks like not UUID.");
            Step::Reply(text)
        },
    }
}

/// The step for `/new`, given the fresh identifier.
pub fn new_step(fresh: ExternalId, chat_id: i64) -> (out: Step)
    ensures
        out@ == new_planned(fresh, chat_id),
{
    Step::Ask(StoreRequest::Create { external_id: fresh, chat_id })
}

/// The step for a command from `chat_id`. `/new` draws its identifier here,
/// so its step is known only up to that identifier.
pub fn plan(command: &Command, chat_id: i64) -> (out: Step)
    ensures
        exists|fresh: ExternalId|
            is_random_stamped(fresh.bits) && out@ == planned(command@, chat_id, fresh),
        !(command@ is New) ==> forall|fresh: ExternalId|
            out@ == planned(command@, chat_id, fresh),
{
    let step = match command {
        Command::Help => Step::Reply(Command::descriptions()),
        Command::Start => {
            let mut text = String::from_str("Hi! Weclome to the RattleHead bot!\n");
            text.append(Command::descriptions().as_str());
            Step::Reply(text)
        },
        Command::Add { rattle_id } => add_step(
            rattle_id.as_str(),
            ExternalId::parse(rattle_id.as_str()),
            chat_id,
        ),
        Command::Remove { rattle_id } => Step::Ask(
            StoreRequest::Unlink { token: rattle_id.clone(), chat_id },
        ),
        Command::List => Step::Ask(StoreRequest::List { chat_id }),
        Command::New => {
            let fresh = ExternalId::generate();
            let step = new_step(fresh, chat_id);
            proof {
                assert(is_random_stamped(fresh.bits) && step@ == planned(
                    command@,
                    chat_id,
                    fresh,
                ));
            }
            step
        },
    };
    proof {
        if !(command@ is New) {
            let any = stamped();
            assert(is_random_stamped(any.bits) && step@ == planned(command@, chat_id, any));
        }
    }
    step
}

/// The reply that `outcome` earns for `request`.
pub fn conclude(request: &StoreRequest, outcome: &StoreOutcome) -> (out: String)
    ensures
        out@ == reply_for(request@, outcome@),
{
    if let StoreOutcome::Failed(reason) = outcome {
        let mut text = String::from_str("Something goes wrong.\n ");
        text.append(reason.as_str());
        return text;
    }
    match request {
        StoreRequest::Link { token, .. } => {
            let mut text = String::from_str("ID: ");
            text.append(token.as_str());
            text.append(" added.");
            text
        },
        StoreRequest::Create { external_id, .. } => {
            let mut text = String::from_str("New ID: ");
            text.append(external_id.to_text().as_str());
            text.append(". Link");
            text
        },
        StoreRequest::Unlink { token, .. } => {
            let mut text = String::from_str("ID: ");
            text.append(token.as_str());
            text.append(" removed");
            text
        },
        StoreRequest::List { .. } => {
            let mut text = String::from_str("ID List:\n ");
            match outcome {
                StoreOutcome::Rows(ids) => {
                    text.append(join_ids(ids).as_str());
                },
                _ => {
                    proof {
                        assert(text@ + Seq::<char>::empty() =~= text@);
                    }
                },
            }
            text
        },
    }
}

/// The reply to a command that came with the wrong number of arguments.
pub fn usage(kind: Kind) -> (out: String)
    ensures
        out@ == usage_reply(kind),
{
    let mut text = String::from_str("Wrong number of arguments.\n");
    text.append(kind.usage().as_str());
    text
}

/// Takes `step` on the table and gives the reply.
pub fn take(store: &mut RecordStore, step: &Step) -> (out: String)
    requires
        old(store).wf(),
    ensures
        final(store).wf(),
        (final(store)@, out@) == taken(old(store)@, step@),
{
    match step {
        Step::Reply(text) => text.clone(),
        Step::Ask(request) => {
            let outcome = store.execute(request);
            conclude(request, &outcome)
        },
    }
}

/// Answers a command from `chat_id` against the table: plans the step, puts
/// its request to the table if it has one, and gives the reply. Every
/// command gets exactly one reply, and a failure of the table is told in it.
pub fn answer(store: &mut RecordStore, chat_id: i64, command: &Command) -> (out: String)
    requires
        old(store).wf(),
    ensures
        final(store).wf(),
        exists|fresh: ExternalId|
            is_random_stamped(fresh.bits) && (final(store)@, out@) == answered(
                old(store)@,
                command@,
                chat_id,
                fresh,
            ),
        !(command@ is New) ==> forall|fresh: ExternalId|
            (final(store)@, out@) == answered(old(store)@, command@, chat_id, fresh),
{
    let step = plan(command, chat_id);
    let out = take(store, &step);
    proof {
        let fresh = choose|fresh: ExternalId|
            is_random_stamped(fresh.bits) && step@ == planned(command@, chat_id, fresh);
        assert(is_random_stamped(fresh.bits) && (store@, out@) == answered(
            old(store)@,
            command@,
            chat_id,
            fresh,
        ));
    }
    out
}

/// The step for a message from `chat_id`, read as a command of the bot
/// called `bot_name`. A command with the wrong number of arguments earns a
/// usage error; a message that is no command of this bot earns no step.
pub fn decide(text: &str, chat_id: i64, bot_name: &str) -> (out: Option<Step>)
    ensures
        exists|fresh: ExternalId|
            is_random_stamped(fresh.bits) && step_view_of(out) == decided(
                parse_spec(text@, bot_name@),
                chat_id,
                fresh,
            ),
        !(parse_spec(text@, bot_name@) matches Ok(CommandView::New)) ==> forall|fresh: ExternalId|
            step_view_of(out) == decided(parse_spec(text@, bot_name@), chat_id, fresh),
{
    let ghost any = stamped();
    match Command::parse(text, bot_name) {
        Ok(command) => {
            let step = plan(&command, chat_id);
            proof {
                let fresh = choose|fresh: ExternalId|
                    is_random_stamped(fresh.bits) && step@ == planned(command@, chat_id, fresh);
                assert(is_random_stamped(fresh.bits) && Some(step@) == decided(
                    parse_spec(text@, bot_name@),
                    chat_id,
                    fresh,
                ));
            }
            Some(step)
        },
        Err(ParseError::TooFewArguments { command, .. }) => {
            let out = Some(Step::Reply(usage(command)));
            proof {
                assert(is_random_stamped(any.bits) && step_view_of(out) == decided(
                    parse_spec(text@, bot_name@),
                    chat_id,
                    any,
                ));
            }
            out
        },
        Err(ParseError::TooManyArguments { command, .. }) => {
            let out = Some(Step::Reply(usage(command)));
            proof {
                assert(is_random_stamped(any.bits) && step_view_of(out) == decided(
                    parse_spec(text@, bot_name@),
                    chat_id,
                    any,
                ));
            }
            out
        },
        Err(_) => {
            proof {
                assert(is_random_stamped(any.bits) && step_view_of(None) == decided(
                    parse_spec(text@, bot_name@),
                    chat_id,
                    any,
                ));
            }
            None
        },
    }
}

/// Reacts to a message from `chat_id` against the table: decides the step,
/// takes it if there is one, and gives the reply.
pub fn respond(store: &mut RecordStore, chat_id: i64, text: &str, bot_name: &str) -> (out: Option<
    String,
>)
    requires
        old(store).wf(),
    ensures
        final(store).wf(),
        exists|fresh: ExternalId|
            is_random_stamped(fresh.bits) && (final(store)@, view_of(out)) == reaction(
                old(store)@,
                parse_spec(text@, bot_name@),
                chat_id,
                fresh,
            ),
        !(parse_spec(text@, bot_name@) matches Ok(CommandView::New)) ==> forall|fresh: ExternalId|
            (final(store)@, view_of(out)) == reaction(
                old(store)@,
                parse_spec(text@, bot_name@),
                chat_id,
                fresh,
            ),
{
    let step = decide(text, chat_id, bot_name);
    let out = match &step {
        Some(step) => Some(take(store, step)),
        None => None,
    };
    proof {
        let parsed = parse_spec(text@, bot_name@);
        let fresh = choose|fresh: ExternalId|
            is_random_stamped(fresh.bits) && step_view_of(step) == decided(parsed, chat_id, fresh);
        assert(is_random_stamped(fresh.bits) && (store@, view_of(out)) == reaction(
            old(store)@,
            parsed,
            chat_id,
            fresh,
        ));
        if !(parsed matches Ok(CommandView::New)) {
            assert forall|other: ExternalId|
                (store@, view_of(out)) == reaction(old(store)@, parsed, chat_id, other) by {
                assert(step_view_of(step) == decided(parsed, chat_id, other));
            }
        }
    }
    out
}

/// An identifier that carries the marks of a random one.
proof fn stamped() -> (out: ExternalId)
    ensures
        is_random_stamped(out.bits),
{
    let bits: u128 = 0x4000_8000_0000_0000_0000;
    assert((bits >> 76) & 0xf == 4 && (bits >> 62) & 0x3 == 2) by (bit_vector)
        requires
            bits == 0x4000_8000_0000_0000_0000,
    ;
    ExternalId { bits }
}

/// The view of a step, if there is one.
pub open spec fn step_view_of(step: Option<Step>) -> Option<StepView> {
    match step {
        Some(step) => Some(step@),
        None => None,
    }
}

/// The text of a reply, if there is one.
pub open spec fn view_of(reply: Option<String>) -> Option<Seq<char>> {
    match reply {
        Some(text) => Some(text@),
        None => None,
    }
}

} // verus!
