use task_store::{RecordStore, StoreError, VecStore};

fn s(x: &str) -> String {
    x.to_string()
}

#[test]
fn identifiers_follow_the_last_record() {
    let mut store = VecStore::new();
    assert_eq!(store.create_record(s("A")), Ok(0));
    assert_eq!(store.delete_record(0), Ok(Some(s("A"))));
    assert_eq!(store.create_record(s("B")), Ok(0));
    assert_eq!(store.create_record(s("C")), Ok(1));
    assert_eq!(store.create_record(s("D")), Ok(2));
}

#[test]
fn interior_gap_does_not_change_assignment() {
    let mut store = VecStore::new();
    for c in ["a", "b", "c"] {
        store.create_record(s(c)).unwrap();
    }
    assert_eq!(store.delete_record(1), Ok(Some(s("b"))));
    assert_eq!(store.create_record(s("d")), Ok(3));
    assert_eq!(store.delete_record(3), Ok(Some(s("d"))));
    assert_eq!(store.delete_record(2), Ok(Some(s("c"))));
    assert_eq!(store.create_record(s("e")), Ok(1));
}

#[test]
fn get_after_create() {
    let mut store = VecStore::new();
    store.create_record(s("first")).unwrap();
    let id = store.create_record(s("héllo wörld")).unwrap();
    assert_eq!(store.get_record(id), Ok(Some(s("héllo wörld"))));
    let empty = store.create_record(String::new()).unwrap();
    assert_eq!(store.get_record(empty), Ok(Some(String::new())));
}

#[test]
fn delete_takes_effect_once() {
    let mut store = VecStore::new();
    let id = store.create_record(s("x")).unwrap();
    assert_eq!(store.delete_record(id), Ok(Some(s("x"))));
    assert_eq!(store.delete_record(id), Ok(None));
    assert_eq!(store.get_record(id), Ok(None));
    assert_eq!(store.get_records(0, 10), Ok(vec![]));
}

#[test]
fn list_keeps_order_and_pages() {
    let mut store = VecStore::new();
    for c in ["a", "b", "c", "d", "e"] {
        store.create_record(s(c)).unwrap();
    }
    store.delete_record(1).unwrap();
    assert_eq!(
        store.get_records(0, 10),
        Ok(vec![(0, s("a")), (2, s("c")), (3, s("d")), (4, s("e"))])
    );
    assert_eq!(store.get_records(1, 2), Ok(vec![(2, s("c")), (3, s("d"))]));
    assert_eq!(store.get_records(3, 5), Ok(vec![(4, s("e"))]));
    assert_eq!(store.get_records(2, 0), Ok(vec![]));
    assert_eq!(store.get_records(usize::MAX, usize::MAX), Ok(vec![]));
    assert_eq!(store.get_records(1, usize::MAX), Ok(vec![(2, s("c")), (3, s("d")), (4, s("e"))]));
}

#[test]
fn list_past_end_is_empty() {
    let mut store = VecStore::new();
    assert_eq!(store.get_records(0, 3), Ok(vec![]));
    store.create_record(s("a")).unwrap();
    assert_eq!(store.get_records(1, 3), Ok(vec![]));
    assert_eq!(store.get_records(7, 3), Ok(vec![]));
}

#[test]
fn patch_persists_its_result() {
    let mut store = VecStore::new();
    store.create_record(s("a")).unwrap();
    let id = store.create_record(s("task")).unwrap();
    let r = store.patch_record(id, |v: String| Ok(v + " done"));
    assert_eq!(r, Ok(s("task done")));
    assert_eq!(store.get_record(id), Ok(Some(s("task done"))));
    assert_eq!(store.get_records(0, 5), Ok(vec![(0, s("a")), (1, s("task done"))]));
}

#[test]
fn patch_fails_on_absent_record() {
    let mut store = VecStore::new();
    store.create_record(s("a")).unwrap();
    let r = store.patch_record(9, |v: String| Ok(v));
    assert_eq!(r, Err(StoreError));
    assert_eq!(store.get_records(0, 5), Ok(vec![(0, s("a"))]));
}

#[test]
fn patch_fails_when_transform_fails() {
    let mut store = VecStore::new();
    store.create_record(s("a")).unwrap();
    let r = store.patch_record(0, |_v: String| Err(StoreError));
    assert_eq!(r, Err(StoreError));
    assert_eq!(store.get_record(0), Ok(Some(s("a"))));
}

#[test]
fn absence_is_not_failure() {
    let mut store = VecStore::new();
    assert_eq!(store.get_record(0), Ok(None));
    assert_eq!(store.delete_record(0), Ok(None));
    store.create_record(s("a")).unwrap();
    assert_eq!(store.get_record(5), Ok(None));
    assert_eq!(store.delete_record(5), Ok(None));
    assert_eq!(store.get_records(0, 5), Ok(vec![(0, s("a"))]));
}
