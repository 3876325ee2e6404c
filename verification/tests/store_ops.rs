use record_store::record::{NotFound, Record};
use record_store::store::Store;

fn rec(id: u32, author: &str) -> Record {
    Record { id, author: author.to_string() }
}

fn filled(records: Vec<Record>) -> Store {
    let mut store = Store::empty();
    for r in records {
        store.create(r);
    }
    store
}

fn missing(id: u32) -> NotFound {
    NotFound { id, message: "record not found".to_string() }
}

#[test]
fn empty_store_holds_nothing() {
    let store = Store::empty();
    assert_eq!(store.len(), 0);
    assert!(store.list().is_empty());
}

#[test]
fn seeded_store_holds_the_two_seed_records() {
    let store = Store::seeded();
    assert_eq!(store.len(), 2);
    assert_eq!(store.list(), &vec![rec(1, "Jane Doe"), rec(2, "Patrick Star")]);
}

#[test]
fn creates_are_listed_in_creation_order() {
    let mut store = Store::empty();
    store.create(rec(5, "e"));
    store.create(rec(3, "c"));
    store.create(rec(9, "i"));
    store.create(rec(3, "again"));
    assert_eq!(
        store.list(),
        &vec![rec(5, "e"), rec(3, "c"), rec(9, "i"), rec(3, "again")]
    );
}

#[test]
fn create_appends_behind_the_seed() {
    let mut store = Store::seeded();
    store.create(rec(3, "X"));
    assert_eq!(
        store.list(),
        &vec![rec(1, "Jane Doe"), rec(2, "Patrick Star"), rec(3, "X")]
    );
}

#[test]
fn create_accepts_an_id_already_present() {
    let mut store = Store::seeded();
    store.create(rec(1, "Second Jane"));
    assert_eq!(store.len(), 3);
    assert_eq!(store.get(1), Ok(rec(1, "Jane Doe")));
}

#[test]
fn position_is_that_of_the_first_match() {
    let store = filled(vec![rec(4, "a"), rec(7, "b"), rec(7, "c"), rec(4, "d")]);
    assert_eq!(store.position(4), Some(0));
    assert_eq!(store.position(7), Some(1));
    assert_eq!(store.position(8), None);
    assert_eq!(Store::empty().position(0), None);
}

#[test]
fn get_returns_the_first_record_with_the_id() {
    let store = filled(vec![rec(4, "a"), rec(7, "first"), rec(7, "second")]);
    assert_eq!(store.get(7), Ok(rec(7, "first")));
    assert_eq!(store.get(4), Ok(rec(4, "a")));
}

#[test]
fn get_leaves_the_store_as_it_was() {
    let store = Store::seeded();
    let _ = store.get(2);
    let _ = store.get(99);
    assert_eq!(store.list(), &vec![rec(1, "Jane Doe"), rec(2, "Patrick Star")]);
}

#[test]
fn get_of_an_absent_id_echoes_the_id() {
    let store = Store::seeded();
    assert_eq!(store.get(3), Err(missing(3)));
    assert_eq!(store.get(0), Err(missing(0)));
    assert_eq!(store.get(u32::MAX), Err(missing(u32::MAX)));
    assert_eq!(Store::empty().get(1), Err(missing(1)));
}

#[test]
fn not_found_carries_id_and_message() {
    let e = NotFound::for_id(42);
    assert_eq!(e.id, 42);
    assert_eq!(e.message, "record not found");
}

#[test]
fn update_replaces_the_whole_slot() {
    let mut store = Store::seeded();
    assert_eq!(store.update(2, rec(2, "Sandy Cheeks")), Ok(rec(2, "Sandy Cheeks")));
    assert_eq!(store.list(), &vec![rec(1, "Jane Doe"), rec(2, "Sandy Cheeks")]);
}

#[test]
fn update_stores_the_id_of_the_body() {
    let mut store = Store::seeded();
    assert_eq!(store.update(1, rec(10, "Renumbered")), Ok(rec(10, "Renumbered")));
    assert_eq!(store.list(), &vec![rec(10, "Renumbered"), rec(2, "Patrick Star")]);
    assert_eq!(store.get(1), Err(missing(1)));
    assert_eq!(store.get(10), Ok(rec(10, "Renumbered")));
}

#[test]
fn update_touches_only_the_first_match() {
    let mut store = filled(vec![rec(1, "a"), rec(2, "b"), rec(2, "c")]);
    assert_eq!(store.update(2, rec(2, "new")), Ok(rec(2, "new")));
    assert_eq!(store.list(), &vec![rec(1, "a"), rec(2, "new"), rec(2, "c")]);
}

#[test]
fn update_may_create_a_duplicate_id() {
    let mut store = Store::seeded();
    assert_eq!(store.update(1, rec(2, "Other")), Ok(rec(2, "Other")));
    assert_eq!(store.list(), &vec![rec(2, "Other"), rec(2, "Patrick Star")]);
    assert_eq!(store.get(2), Ok(rec(2, "Other")));
}

#[test]
fn update_of_an_absent_id_changes_nothing() {
    let mut store = Store::seeded();
    assert_eq!(store.update(3, rec(3, "X")), Err(missing(3)));
    assert_eq!(store.update(7, rec(1, "X")), Err(missing(7)));
    assert_eq!(store.list(), &vec![rec(1, "Jane Doe"), rec(2, "Patrick Star")]);
}

#[test]
fn delete_removes_the_first_match_only() {
    let mut store = filled(vec![rec(1, "a"), rec(2, "first"), rec(3, "c"), rec(2, "second")]);
    assert_eq!(store.delete(2), Ok(rec(2, "first")));
    assert_eq!(store.len(), 3);
    assert_eq!(store.list(), &vec![rec(1, "a"), rec(3, "c"), rec(2, "second")]);
}

#[test]
fn delete_closes_the_gap_and_keeps_the_order() {
    let mut store = filled(vec![rec(1, "a"), rec(2, "b"), rec(3, "c"), rec(4, "d")]);
    assert_eq!(store.delete(1), Ok(rec(1, "a")));
    assert_eq!(store.list(), &vec![rec(2, "b"), rec(3, "c"), rec(4, "d")]);
    assert_eq!(store.delete(4), Ok(rec(4, "d")));
    assert_eq!(store.list(), &vec![rec(2, "b"), rec(3, "c")]);
}

#[test]
fn delete_of_an_absent_id_changes_nothing() {
    let mut store = Store::seeded();
    assert_eq!(store.delete(3), Err(missing(3)));
    assert_eq!(store.len(), 2);
    assert_eq!(store.list(), &vec![rec(1, "Jane Doe"), rec(2, "Patrick Star")]);
    let mut nothing = Store::empty();
    assert_eq!(nothing.delete(1), Err(missing(1)));
    assert_eq!(nothing.len(), 0);
}

#[test]
fn second_delete_of_a_unique_id_finds_nothing() {
    let mut store = Store::seeded();
    assert_eq!(store.delete(1), Ok(rec(1, "Jane Doe")));
    assert_eq!(store.delete(1), Err(missing(1)));
    assert_eq!(store.list(), &vec![rec(2, "Patrick Star")]);
}

#[test]
fn second_delete_of_a_duplicated_id_takes_the_next() {
    let mut store = filled(vec![rec(1, "a"), rec(1, "b")]);
    assert_eq!(store.delete(1), Ok(rec(1, "a")));
    assert_eq!(store.delete(1), Ok(rec(1, "b")));
    assert_eq!(store.delete(1), Err(missing(1)));
    assert_eq!(store.len(), 0);
}

#[test]
fn clone_of_a_record_equals_it() {
    let r = rec(8, "Ada \"the\" Author");
    assert_eq!(r.clone(), r);
}
