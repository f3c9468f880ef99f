use rust_flutter_application::utils::session::{SessionLookup, SessionStore};

#[test]
fn new_store_holds_nothing() {
    let store = SessionStore::new();
    assert_eq!(store.exists_get(1, 0), None);
    assert_eq!(store.exists_get(0, i64::MIN), None);
}

#[test]
fn put_session_is_found_until_its_lifetime_has_run_out() {
    let mut store = SessionStore::new();
    store.put(7, "u1", 900, 1_000);
    assert_eq!(store.exists_get(7, 1_000), Some("u1".to_string()));
    assert_eq!(store.exists_get(7, 1_899), Some("u1".to_string()));
    assert_eq!(store.exists_get(7, 1_900), None);
    assert_eq!(store.exists_get(7, 5_000), None);
    assert_eq!(store.exists_get(8, 1_000), None);
}

#[test]
fn put_with_no_lifetime_is_never_found() {
    let mut store = SessionStore::new();
    store.put(7, "u1", 0, 1_000);
    assert_eq!(store.exists_get(7, 1_000), None);
    assert_eq!(store.exists_get(7, 999), Some("u1".to_string()));
}

#[test]
fn put_takes_the_widest_clock_and_lifetime() {
    let mut store = SessionStore::new();
    store.put(1, "u1", u64::MAX, i64::MAX);
    assert_eq!(store.exists_get(1, i64::MAX), Some("u1".to_string()));
    store.put(2, "u2", u64::MAX, i64::MIN);
    assert_eq!(store.exists_get(2, i64::MAX - 1), Some("u2".to_string()));
    assert_eq!(store.exists_get(2, i64::MAX), None);
    store.put(3, "u3", 1, i64::MIN);
    assert_eq!(store.exists_get(3, i64::MIN), Some("u3".to_string()));
    assert_eq!(store.exists_get(3, i64::MIN + 1), None);
}

#[test]
fn put_replaces_the_record_under_the_same_id() {
    let mut store = SessionStore::new();
    store.put(7, "u1", 10, 0);
    store.put(7, "u2", 20, 5);
    assert_eq!(store.exists_get(7, 24), Some("u2".to_string()));
    assert_eq!(store.exists_get(7, 25), None);
}

#[test]
fn put_twice_is_put_once() {
    let mut once = SessionStore::new();
    once.put(7, "u1", 10, 0);
    let mut twice = SessionStore::new();
    twice.put(7, "u1", 10, 0);
    twice.put(7, "u1", 10, 0);
    for now in [0, 9, 10] {
        assert_eq!(once.exists_get(7, now), twice.exists_get(7, now));
    }
    assert_eq!(twice.delete(&[7], 0), 1);
    assert_eq!(twice.exists_get(7, 0), None);
}

#[test]
fn deleted_session_is_absent_at_the_next_look() {
    let mut store = SessionStore::new();
    store.put(7, "u1", 900, 1_000);
    assert_eq!(store.exists_get(7, 1_000), Some("u1".to_string()));
    assert_eq!(store.delete(&[7], 1_000), 1);
    assert_eq!(store.exists_get(7, 1_000), None);
    assert_eq!(store.exists_get(7, 0), None);
}

#[test]
fn delete_removes_both_sessions_together() {
    let mut store = SessionStore::new();
    store.put(1, "u1", 900, 0);
    store.put(2, "u1", 86_400, 0);
    store.put(3, "u2", 900, 0);
    assert_eq!(store.delete(&[2, 1], 10), 2);
    assert_eq!(store.exists_get(1, 10), None);
    assert_eq!(store.exists_get(2, 10), None);
    assert_eq!(store.exists_get(3, 10), Some("u2".to_string()));
}

#[test]
fn delete_counts_live_sessions_once() {
    let mut store = SessionStore::new();
    store.put(1, "u1", 900, 0);
    store.put(2, "u1", 5, 0);
    // 1 is named twice, 2 has run out, 9 was never there
    assert_eq!(store.delete(&[1, 2, 1, 9], 10), 1);
    assert_eq!(store.delete(&[1, 2, 9], 10), 0);
    assert_eq!(store.delete(&[], 10), 0);
    // a session that had run out is deleted all the same
    assert_eq!(store.exists_get(2, 0), None);
}

#[test]
fn look_up_answers_found_or_absent() {
    let mut store = SessionStore::new();
    store.put(7, "u1", 10, 0);
    assert!(matches!(store.look_up(7, 9), SessionLookup::Found(ref s) if s == "u1"));
    assert!(matches!(store.look_up(7, 10), SessionLookup::Absent));
    assert!(matches!(store.look_up(8, 0), SessionLookup::Absent));
}
