use fakeguard::store::RestrictionStore;

#[test]
fn fresh_store_lists_nothing() {
    let s = RestrictionStore::new();
    assert!(s.restriction_list(100).is_empty());
    assert!(!s.is_chat_restricted(100, 555));
    assert!(!s.is_chat_restricted(100, 0));
    assert!(!s.is_chat_restricted(-1, -1001036362176));
}

#[test]
fn add_then_restricted() {
    let mut s = RestrictionStore::new();
    s.add_to_restrictions(1, 42, "foo");
    assert!(s.is_chat_restricted(1, 42));
    assert!(!s.is_chat_restricted(2, 42));
    assert!(!s.is_chat_restricted(1, 43));
}

#[test]
fn double_add_keeps_cardinality() {
    let mut s = RestrictionStore::new();
    s.add_to_restrictions(1, 42, "foo");
    s.add_to_restrictions(1, 42, "foo");
    assert_eq!(s.restriction_list(1).len(), 1);
}

#[test]
fn same_id_other_login_is_new_member() {
    let mut s = RestrictionStore::new();
    s.add_to_restrictions(1, 42, "foo");
    s.add_to_restrictions(1, 42, "bar");
    assert_eq!(s.restriction_list(1), vec!["foo".to_string(), "bar".to_string()]);
}

#[test]
fn remove_by_login_removes_all_ids() {
    let mut s = RestrictionStore::new();
    s.add_to_restrictions(9, 1, "x");
    s.add_to_restrictions(9, 2, "x");
    s.add_to_restrictions(9, 3, "y");
    s.remove_from_restrictions(9, "x");
    assert_eq!(s.restriction_list(9), vec!["y".to_string()]);
    assert!(!s.is_chat_restricted(9, 1));
    assert!(!s.is_chat_restricted(9, 2));
    assert!(s.is_chat_restricted(9, 3));
}

#[test]
fn remove_missing_is_noop() {
    let mut s = RestrictionStore::new();
    s.add_to_restrictions(9, 1, "x");
    s.remove_from_restrictions(9, "z");
    assert_eq!(s.restriction_list(9), vec!["x".to_string()]);
    s.remove_from_restrictions(12345, "x");
    assert!(s.restriction_list(12345).is_empty());
    assert!(s.is_chat_restricted(9, 1));
}

#[test]
fn removal_is_scoped_to_the_chat() {
    let mut s = RestrictionStore::new();
    s.add_to_restrictions(1, 5, "x");
    s.add_to_restrictions(2, 5, "x");
    s.remove_from_restrictions(1, "x");
    assert!(!s.is_chat_restricted(1, 5));
    assert!(s.is_chat_restricted(2, 5));
}

#[test]
fn round_trip_lists_login_once() {
    let mut s = RestrictionStore::new();
    s.add_to_restrictions(7, 77, "once");
    let listed = s.restriction_list(7);
    assert_eq!(listed.iter().filter(|l| l.as_str() == "once").count(), 1);
}

#[test]
fn entries_keep_ids_and_order() {
    let mut s = RestrictionStore::new();
    s.add_to_restrictions(4, 10, "a");
    s.add_to_restrictions(4, 20, "b");
    let entries = s.chat_entries(4);
    assert_eq!(entries.len(), 2);
    assert_eq!(entries[0].source_id, 10);
    assert_eq!(entries[0].login, "a");
    assert_eq!(entries[1].source_id, 20);
    assert_eq!(entries[1].login, "b");
}
