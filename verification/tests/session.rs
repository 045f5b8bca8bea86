use betterlytics::session::{
    generate_session_id, get_or_create_session_id, resolve_session, SessionStore,
    SESSION_EXPIRY_SECS,
};

#[test]
fn session_is_kept_within_the_window() {
    let mut store = SessionStore::new();
    let first = store.get_or_create_at("site", "visitor", 1_000, "first-id".to_string());
    assert_eq!(first, "first-id");
    let second = store.get_or_create_at("site", "visitor", 1_000 + 1_799, "second-id".to_string());
    assert_eq!(second, "first-id");
}

#[test]
fn session_window_slides_with_each_event() {
    let mut store = SessionStore::new();
    let a = store.get_or_create_at("site", "visitor", 0, "a".to_string());
    let b = store.get_or_create_at("site", "visitor", 1_500, "b".to_string());
    let c = store.get_or_create_at("site", "visitor", 3_000, "c".to_string());
    assert_eq!(a, "a");
    assert_eq!(b, "a");
    assert_eq!(c, "a");
}

#[test]
fn session_is_replaced_after_the_window() {
    let mut store = SessionStore::new();
    let first = store.get_or_create_at("site", "visitor", 1_000, "first-id".to_string());
    let second = store.get_or_create_at("site", "visitor", 1_000 + 1_800, "second-id".to_string());
    assert_eq!(first, "first-id");
    assert_eq!(second, "second-id");
    let third = store.get_or_create_at("site", "visitor", 1_000 + 1_800 + 10, "third-id".to_string());
    assert_eq!(third, "second-id");
}

#[test]
fn sessions_of_different_visitors_and_sites_are_apart() {
    let mut store = SessionStore::new();
    assert_eq!(store.get_or_create_at("site", "one", 5, "s1".to_string()), "s1");
    assert_eq!(store.get_or_create_at("site", "two", 6, "s2".to_string()), "s2");
    assert_eq!(store.get_or_create_at("other", "one", 7, "s3".to_string()), "s3");
    assert_eq!(store.get_or_create_at("site", "one", 8, "s4".to_string()), "s1");
    assert_eq!(store.get_or_create_at("site", "two", 9, "s5".to_string()), "s2");
    assert_eq!(store.get_or_create_at("other", "one", 10, "s6".to_string()), "s3");
}

#[test]
fn pairs_with_a_hyphen_do_not_share_a_session() {
    let mut store = SessionStore::new();
    assert_eq!(store.get_or_create_at("a-b", "c", 5, "first".to_string()), "first");
    assert_eq!(store.get_or_create_at("a", "b-c", 6, "second".to_string()), "second");
    assert_eq!(store.get_or_create_at("a-b", "c", 7, "third".to_string()), "first");
    assert_eq!(store.get_or_create_at("a", "b-c", 8, "fourth".to_string()), "second");
    assert_eq!(store.get_or_create_at("", "a-b-c", 9, "fifth".to_string()), "fifth");
}

#[test]
fn session_window_is_thirty_minutes() {
    assert_eq!(SESSION_EXPIRY_SECS, 30 * 60);
}

#[test]
fn resolve_session_follows_the_window() {
    assert_eq!(resolve_session(None, 50, "new".to_string()), "new");
    assert_eq!(resolve_session(Some(("old".to_string(), 100)), 100, "new".to_string()), "old");
    assert_eq!(resolve_session(Some(("old".to_string(), 100)), 1_899, "new".to_string()), "old");
    assert_eq!(resolve_session(Some(("old".to_string(), 100)), 1_900, "new".to_string()), "new");
    // A clock that went back does not end a session.
    assert_eq!(resolve_session(Some(("old".to_string(), 100)), 40, "new".to_string()), "old");
}

#[test]
fn session_ids_are_sixteen_url_safe_characters() {
    let id = generate_session_id();
    assert_eq!(id.chars().count(), 16);
    assert!(id.chars().all(|c| c.is_ascii_alphanumeric() || c == '_' || c == '-'));
    assert_ne!(generate_session_id(), id);
}

#[test]
fn session_by_the_clock_is_kept() {
    let mut store = SessionStore::new();
    let first = get_or_create_session_id(&mut store, "site", "fingerprint").unwrap();
    let second = get_or_create_session_id(&mut store, "site", "fingerprint").unwrap();
    let other = get_or_create_session_id(&mut store, "site", "someone-else").unwrap();
    assert_eq!(first.chars().count(), 16);
    assert_eq!(first, second);
    assert_ne!(first, other);
}

#[test]
fn session_by_the_clock_is_a_new_identifier_or_the_one_on_record() {
    let mut store = SessionStore::new();
    let minted = get_or_create_session_id(&mut store, "site", "visitor").unwrap();
    assert_eq!(minted.chars().count(), 16);
    assert!(minted.chars().all(|c| c.is_ascii_alphanumeric() || c == '_' || c == '-'));
    // A record that was made with an identifier of another shape is handed out as it is.
    let now = std::time::SystemTime::now()
        .duration_since(std::time::UNIX_EPOCH)
        .map(|d| d.as_secs())
        .unwrap_or(0);
    assert_eq!(store.get_or_create_at("site", "other", now, "x".to_string()), "x");
    assert_eq!(get_or_create_session_id(&mut store, "site", "other").unwrap(), "x");
}
