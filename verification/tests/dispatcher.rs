use rattlehead_bot::command::{Command, Kind};
use rattlehead_bot::dispatch::{
    add_step, answer, conclude, decide, join_ids, new_step, plan, respond, take, usage, Step,
};
use rattlehead_bot::ident::ExternalId;
use rattlehead_bot::store::{RecordStore, StoreOutcome, StoreRequest};

const BOT: &str = "rattlehead_bot";
const A: ExternalId = ExternalId { bits: 0x936da01f9abd4d9d80c702af85c822a8 };
const A_TEXT: &str = "936da01f-9abd-4d9d-80c7-02af85c822a8";
const B: ExternalId = ExternalId { bits: 0x0123456789abcdef0123456789abcdef };
const B_TEXT: &str = "01234567-89ab-cdef-0123-456789abcdef";
const HELP: &str = "These commands are supported:\n/help - display this text.\n/start - Starting bot use\n/add - Adding existing ID.\n/remove - Removing ID.\n/list - List of all your connected IDs.\n/new - Adding new ID.\n";

fn add(token: &str) -> Command {
    Command::Add { rattle_id: token.to_string() }
}

fn remove(token: &str) -> Command {
    Command::Remove { rattle_id: token.to_string() }
}

fn uuid_in(reply: &str) -> String {
    let rest = reply.strip_prefix("New ID: ").expect("the reply starts with the heading");
    rest.strip_suffix(". Link").expect("the reply ends with the tail").to_string()
}

#[test]
fn help_replies_with_the_descriptions() {
    assert_eq!(plan(&Command::Help, 42), Step::Reply(HELP.to_string()));
}

#[test]
fn start_welcomes_and_writes_nothing() {
    let mut store = RecordStore::new();
    let reply = answer(&mut store, 42, &Command::Start);
    assert_eq!(reply, format!("Hi! Weclome to the RattleHead bot!\n{}", HELP));
    assert_eq!(store.len(), 0);
}

#[test]
fn add_asks_for_a_link() {
    assert_eq!(
        plan(&add(A_TEXT), 42),
        Step::Ask(StoreRequest::Link { external_id: A, chat_id: 42, token: A_TEXT.to_string() })
    );
    assert_eq!(
        plan(&add("936DA01F9ABD4D9D80C702AF85C822A8"), 42),
        Step::Ask(StoreRequest::Link {
            external_id: A,
            chat_id: 42,
            token: "936DA01F9ABD4D9D80C702AF85C822A8".to_string()
        })
    );
}

#[test]
fn add_of_no_uuid_is_answered_at_once() {
    assert_eq!(
        plan(&add("not-a-uuid"), 42),
        Step::Reply("not-a-uuid looks like not UUID.".to_string())
    );
    assert_eq!(add_step("x", None, 1), Step::Reply("x looks like not UUID.".to_string()));
    assert_eq!(
        add_step("x", Some(B), 1),
        Step::Ask(StoreRequest::Link { external_id: B, chat_id: 1, token: "x".to_string() })
    );
}

#[test]
fn add_of_no_uuid_never_writes() {
    let mut store = RecordStore::new();
    store.insert(A, 42).unwrap();
    let reply = answer(&mut store, 42, &add("not-a-uuid"));
    assert_eq!(reply, "not-a-uuid looks like not UUID.");
    assert_eq!(store.len(), 1);
    assert_eq!(store.select(42), vec![A]);
}

#[test]
fn remove_asks_without_looking_at_the_token() {
    assert_eq!(
        plan(&remove("whatever"), 42),
        Step::Ask(StoreRequest::Unlink { token: "whatever".to_string(), chat_id: 42 })
    );
}

#[test]
fn list_asks_for_the_chat() {
    assert_eq!(plan(&Command::List, 42), Step::Ask(StoreRequest::List { chat_id: 42 }));
}

#[test]
fn new_asks_to_tie_a_fresh_identifier() {
    match plan(&Command::New, 42) {
        Step::Ask(StoreRequest::Create { external_id, chat_id }) => {
            assert_eq!(chat_id, 42);
            assert_eq!((external_id.bits >> 76) & 0xf, 4);
        }
        other => panic!("unexpected step: {:?}", other),
    }
    assert_eq!(new_step(B, 7), Step::Ask(StoreRequest::Create { external_id: B, chat_id: 7 }));
}

#[test]
fn conclude_confirms_each_request() {
    let link = StoreRequest::Link { external_id: A, chat_id: 42, token: "TOKEN".to_string() };
    assert_eq!(conclude(&link, &StoreOutcome::Done), "ID: TOKEN added.");
    let create = StoreRequest::Create { external_id: A, chat_id: 42 };
    assert_eq!(conclude(&create, &StoreOutcome::Done), format!("New ID: {}. Link", A_TEXT));
    let unlink = StoreRequest::Unlink { token: "TOKEN".to_string(), chat_id: 42 };
    assert_eq!(conclude(&unlink, &StoreOutcome::Done), "ID: TOKEN removed");
    let list = StoreRequest::List { chat_id: 42 };
    assert_eq!(
        conclude(&list, &StoreOutcome::Rows(vec![A, B])),
        format!("ID List:\n {}\n{}", A_TEXT, B_TEXT)
    );
    assert_eq!(conclude(&list, &StoreOutcome::Rows(vec![A])), format!("ID List:\n {}", A_TEXT));
    assert_eq!(conclude(&list, &StoreOutcome::Rows(Vec::new())), "ID List:\n ");
    assert_eq!(conclude(&list, &StoreOutcome::Done), "ID List:\n ");
}

#[test]
fn conclude_tells_a_failure_with_its_reason() {
    let failed = StoreOutcome::Failed("connection refused".to_string());
    let expected = "Something goes wrong.\n connection refused";
    let link = StoreRequest::Link { external_id: A, chat_id: 42, token: A_TEXT.to_string() };
    assert_eq!(conclude(&link, &failed), expected);
    assert_eq!(conclude(&StoreRequest::Create { external_id: A, chat_id: 42 }, &failed), expected);
    let unlink = StoreRequest::Unlink { token: A_TEXT.to_string(), chat_id: 42 };
    assert_eq!(conclude(&unlink, &failed), expected);
    assert_eq!(conclude(&StoreRequest::List { chat_id: 42 }, &failed), expected);
}

#[test]
fn join_ids_puts_one_identifier_to_a_line() {
    assert_eq!(join_ids(&Vec::new()), "");
    assert_eq!(join_ids(&vec![A]), A_TEXT);
    assert_eq!(join_ids(&vec![A, B, A]), format!("{}\n{}\n{}", A_TEXT, B_TEXT, A_TEXT));
}

#[test]
fn usage_names_the_command() {
    assert_eq!(usage(Kind::Add), "Wrong number of arguments.\n/add - Adding existing ID.\n");
    assert_eq!(usage(Kind::Remove), "Wrong number of arguments.\n/remove - Removing ID.\n");
}

#[test]
fn take_sends_a_ready_reply_untouched() {
    let mut store = RecordStore::new();
    assert_eq!(take(&mut store, &Step::Reply("hello".to_string())), "hello");
    assert_eq!(store.len(), 0);
}

#[test]
fn add_then_list_names_the_identifier_once() {
    let mut store = RecordStore::new();
    assert_eq!(answer(&mut store, 42, &add(A_TEXT)), format!("ID: {} added.", A_TEXT));
    let listing = answer(&mut store, 42, &Command::List);
    assert_eq!(listing, format!("ID List:\n {}", A_TEXT));
    assert_eq!(listing.matches(A_TEXT).count(), 1);
}

#[test]
fn add_twice_still_lists_the_identifier_once() {
    let mut store = RecordStore::new();
    assert_eq!(answer(&mut store, 42, &add(A_TEXT)), format!("ID: {} added.", A_TEXT));
    assert_eq!(
        answer(&mut store, 42, &add(A_TEXT)),
        "Something goes wrong.\n this ID is already linked to the chat"
    );
    assert_eq!(
        answer(&mut store, 42, &add("936DA01F-9ABD-4D9D-80C7-02AF85C822A8")),
        "Something goes wrong.\n this ID is already linked to the chat"
    );
    let listing = answer(&mut store, 42, &Command::List);
    assert_eq!(listing.matches(A_TEXT).count(), 1);
}

#[test]
fn add_in_another_form_lists_the_canonical_text() {
    let mut store = RecordStore::new();
    assert_eq!(
        answer(&mut store, 42, &add("936DA01F9ABD4D9D80C702AF85C822A8")),
        "ID: 936DA01F9ABD4D9D80C702AF85C822A8 added."
    );
    assert_eq!(answer(&mut store, 42, &Command::List), format!("ID List:\n {}", A_TEXT));
}

#[test]
fn one_chat_never_sees_the_links_of_another() {
    let mut store = RecordStore::new();
    answer(&mut store, 1, &add(A_TEXT));
    answer(&mut store, 1, &Command::New);
    assert_eq!(answer(&mut store, 2, &Command::List), "ID List:\n ");
    answer(&mut store, 2, &add(B_TEXT));
    assert_eq!(answer(&mut store, 2, &Command::List), format!("ID List:\n {}", B_TEXT));
    answer(&mut store, 1, &remove(B_TEXT));
    assert_eq!(answer(&mut store, 2, &Command::List), format!("ID List:\n {}", B_TEXT));
}

#[test]
fn remove_twice_says_removed_twice() {
    let mut store = RecordStore::new();
    answer(&mut store, 42, &add(A_TEXT));
    assert_eq!(answer(&mut store, 42, &remove(A_TEXT)), format!("ID: {} removed", A_TEXT));
    assert_eq!(store.len(), 0);
    assert_eq!(answer(&mut store, 42, &remove(A_TEXT)), format!("ID: {} removed", A_TEXT));
    assert_eq!(store.len(), 0);
}

#[test]
fn remove_of_what_was_never_there_says_removed() {
    let mut store = RecordStore::new();
    assert_eq!(answer(&mut store, 42, &remove("junk")), "ID: junk removed");
    assert_eq!(store.len(), 0);
}

#[test]
fn new_replies_with_an_identifier_that_list_shows() {
    let mut store = RecordStore::new();
    let reply = answer(&mut store, 42, &Command::New);
    let text = uuid_in(&reply);
    assert_eq!(text.len(), 36);
    let id = ExternalId::parse(&text).expect("the reply carries an identifier");
    assert_eq!(id.to_text(), text);
    assert_eq!(store.select(42), vec![id]);
    assert_eq!(answer(&mut store, 42, &Command::List), format!("ID List:\n {}", text));
}

#[test]
fn decide_turns_a_message_into_a_step() {
    assert_eq!(decide("/help", 42, BOT), Some(Step::Reply(HELP.to_string())));
    assert_eq!(decide("/list", 42, BOT), Some(Step::Ask(StoreRequest::List { chat_id: 42 })));
    assert_eq!(
        decide("/add", 42, BOT),
        Some(Step::Reply("Wrong number of arguments.\n/add - Adding existing ID.\n".to_string()))
    );
    assert_eq!(
        decide("/remove a b", 42, BOT),
        Some(Step::Reply("Wrong number of arguments.\n/remove - Removing ID.\n".to_string()))
    );
    assert_eq!(decide("just talking", 42, BOT), None);
    assert_eq!(decide("/help@other_bot", 42, BOT), None);
}

#[test]
fn text_that_is_no_command_earns_no_reply() {
    let mut store = RecordStore::new();
    assert_eq!(respond(&mut store, 42, "good morning", BOT), None);
    assert_eq!(respond(&mut store, 42, "/unknown", BOT), None);
    assert_eq!(respond(&mut store, 42, "/new@other_bot", BOT), None);
    assert_eq!(store.len(), 0);
}

#[test]
fn a_wrong_number_of_arguments_earns_a_usage_error() {
    let mut store = RecordStore::new();
    assert_eq!(
        respond(&mut store, 42, "/add", BOT),
        Some("Wrong number of arguments.\n/add - Adding existing ID.\n".to_string())
    );
    assert_eq!(
        respond(&mut store, 42, "/remove a b", BOT),
        Some("Wrong number of arguments.\n/remove - Removing ID.\n".to_string())
    );
    assert_eq!(store.len(), 0);
}

#[test]
fn end_to_end_new_list_remove_list() {
    let mut store = RecordStore::new();
    let made = respond(&mut store, 42, "/new", BOT).expect("a reply");
    let x = uuid_in(&made);
    assert!(ExternalId::parse(&x).is_some());
    assert_eq!(respond(&mut store, 42, "/list", BOT), Some(format!("ID List:\n {}", x)));
    let listed = store.select(42);
    assert_eq!(join_ids(&listed), x);
    assert_eq!(
        respond(&mut store, 42, &format!("/remove {}", x), BOT),
        Some(format!("ID: {} removed", x))
    );
    assert_eq!(respond(&mut store, 42, "/list", BOT), Some("ID List:\n ".to_string()));
    assert_eq!(join_ids(&store.select(42)), "");
}
