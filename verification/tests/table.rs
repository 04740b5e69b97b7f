use rattlehead_bot::ident::ExternalId;
use rattlehead_bot::store::{RecordStore, StoreError, StoreOutcome, StoreRequest};

const A: ExternalId = ExternalId { bits: 0x936da01f9abd4d9d80c702af85c822a8 };
const A_TEXT: &str = "936da01f-9abd-4d9d-80c7-02af85c822a8";
const B: ExternalId = ExternalId { bits: 0x0123456789abcdef0123456789abcdef };
const B_TEXT: &str = "01234567-89ab-cdef-0123-456789abcdef";

#[test]
fn a_new_table_is_empty() {
    let store = RecordStore::new();
    assert_eq!(store.len(), 0);
    assert_eq!(store.select(42), Vec::<ExternalId>::new());
    assert!(!store.contains(A, 42));
}

#[test]
fn insert_ties_a_chat_to_an_identifier() {
    let mut store = RecordStore::new();
    assert_eq!(store.insert(A, 42), Ok(()));
    assert!(store.contains(A, 42));
    assert!(!store.contains(A, 43));
    assert!(!store.contains(B, 42));
    assert_eq!(store.len(), 1);
}

#[test]
fn insert_refuses_a_link_that_is_there() {
    let mut store = RecordStore::new();
    assert_eq!(store.insert(A, 42), Ok(()));
    assert_eq!(store.insert(A, 42), Err(StoreError::Duplicate));
    assert_eq!(store.len(), 1);
    assert_eq!(store.select(42), vec![A]);
}

#[test]
fn two_chats_may_share_an_identifier() {
    let mut store = RecordStore::new();
    assert_eq!(store.insert(A, 1), Ok(()));
    assert_eq!(store.insert(A, 2), Ok(()));
    assert_eq!(store.select(1), vec![A]);
    assert_eq!(store.select(2), vec![A]);
}

#[test]
fn select_keeps_the_order_of_insertion() {
    let mut store = RecordStore::new();
    store.insert(B, 42).unwrap();
    store.insert(A, 7).unwrap();
    store.insert(A, 42).unwrap();
    assert_eq!(store.select(42), vec![B, A]);
    assert_eq!(store.select(7), vec![A]);
    assert_eq!(store.select(8), Vec::<ExternalId>::new());
}

#[test]
fn delete_drops_the_named_link_only() {
    let mut store = RecordStore::new();
    store.insert(A, 42).unwrap();
    store.insert(B, 42).unwrap();
    store.insert(A, 7).unwrap();
    assert_eq!(store.delete(A_TEXT, 42), 1);
    assert_eq!(store.select(42), vec![B]);
    assert_eq!(store.select(7), vec![A]);
    assert_eq!(store.len(), 2);
}

#[test]
fn delete_of_what_is_not_there_drops_nothing() {
    let mut store = RecordStore::new();
    store.insert(A, 42).unwrap();
    assert_eq!(store.delete(B_TEXT, 42), 0);
    assert_eq!(store.delete(A_TEXT, 43), 0);
    assert_eq!(store.delete("not-a-uuid", 42), 0);
    assert_eq!(store.delete("936DA01F-9ABD-4D9D-80C7-02AF85C822A8", 42), 0);
    assert_eq!(store.select(42), vec![A]);
}

#[test]
fn the_duplicate_error_has_its_message() {
    assert_eq!(StoreError::Duplicate.message(), "this ID is already linked to the chat");
}

#[test]
fn execute_runs_each_request() {
    let mut store = RecordStore::new();
    let link = StoreRequest::Link { external_id: A, chat_id: 42, token: A_TEXT.to_string() };
    assert_eq!(store.execute(&link), StoreOutcome::Done);
    assert_eq!(
        store.execute(&link),
        StoreOutcome::Failed("this ID is already linked to the chat".to_string())
    );
    let create = StoreRequest::Create { external_id: B, chat_id: 42 };
    assert_eq!(store.execute(&create), StoreOutcome::Done);
    assert_eq!(
        store.execute(&StoreRequest::List { chat_id: 42 }),
        StoreOutcome::Rows(vec![A, B])
    );
    let unlink = StoreRequest::Unlink { token: A_TEXT.to_string(), chat_id: 42 };
    assert_eq!(store.execute(&unlink), StoreOutcome::Done);
    assert_eq!(store.execute(&unlink), StoreOutcome::Done);
    assert_eq!(store.execute(&StoreRequest::List { chat_id: 42 }), StoreOutcome::Rows(vec![B]));
    assert_eq!(
        store.execute(&StoreRequest::List { chat_id: 1 }),
        StoreOutcome::Rows(Vec::new())
    );
}
