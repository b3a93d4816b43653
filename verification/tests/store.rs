//! Scenario tests for the in-memory store: round trip, deletion finality,
//! unknown ids, and idempotent absence.

use pastebin::error::AppError;
use pastebin::paste::{Paste, PasteStore};
use pastebin::store::MemStore;

fn ok<T>(r: Result<T, AppError>) -> T {
    match r {
        Ok(v) => v,
        Err(_) => panic!("unexpected storage error"),
    }
}

#[test]
fn round_trip_create_get() {
    let mut store = MemStore::new();
    let created: Paste = ok(store.create("some content".to_string()));
    let fetched = ok(store.get(created.id)).expect("created paste must be live");
    assert_eq!(fetched.id, created.id);
    assert_eq!(fetched.content, "some content");
}

#[test]
fn deletion_finality() {
    let mut store = MemStore::new();
    let created = ok(store.create("gone soon".to_string()));
    let removed = ok(store.remove(created.id)).expect("created paste must be removable");
    assert_eq!(removed.content, "gone soon");
    assert!(ok(store.get(created.id)).is_none());
}

#[test]
fn unknown_id_absent() {
    let mut store = MemStore::new();
    let _ = ok(store.create("resident".to_string()));
    let stranger = uuid::Uuid::new_v4().as_u128();
    assert!(ok(store.get(stranger)).is_none());
    assert!(ok(store.remove(stranger)).is_none());
}

#[test]
fn remove_twice_idempotent() {
    let mut store = MemStore::new();
    let created = ok(store.create("once".to_string()));
    let first = ok(store.remove(created.id));
    let second = ok(store.remove(created.id));
    let third = ok(store.remove(created.id));
    assert!(first.is_some());
    assert!(second.is_none());
    assert!(third.is_none());
}

#[test]
fn empty_content_round_trips() {
    let mut store = MemStore::new();
    let created = ok(store.create(String::new()));
    let fetched = ok(store.get(created.id)).expect("created paste must be live");
    assert_eq!(fetched.content, "");
}

#[test]
fn create_assigns_distinct_ids() {
    let mut store = MemStore::new();
    let a = ok(store.create("first".to_string()));
    let b = ok(store.create("second".to_string()));
    assert_ne!(a.id, b.id);
    assert_eq!(ok(store.get(a.id)).expect("live").content, "first");
    assert_eq!(ok(store.get(b.id)).expect("live").content, "second");
}
