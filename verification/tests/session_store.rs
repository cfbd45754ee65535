//! Tests of the hash, the identifier generator, and the store's
//! put/get/delete with expiry.

use just_links::session::{
    generate_session_id, hash, AuthzedSessionData, HashedSessionId, RequestTokenSessionData,
    SessionRecord, SessionStore,
};

#[test]
fn test_hash() {
    let input = "input".to_string();
    let output = hash(&input);
    assert_ne!(input, output);
}

#[test]
fn test_generate_session_id() {
    let (session_id, hashed_session_id) = generate_session_id().unwrap();
    assert_ne!(session_id.0, hashed_session_id.0);
    assert_eq!(hash(&session_id.0), hashed_session_id.0);
}

#[test]
fn hash_is_deterministic_and_fixed_length() {
    assert_eq!(hash("x"), hash("x"));
    assert_eq!(hash(""), hash(""));
    assert_eq!(hash("x").len(), 44);
    assert_eq!(hash("").len(), 44);
    let long = "a".repeat(10_000);
    assert_eq!(hash(&long).len(), 44);
    assert_ne!(hash("x"), hash("y"));
}

#[test]
fn generated_identifiers_differ() {
    let (a, _) = generate_session_id().unwrap();
    let (b, _) = generate_session_id().unwrap();
    assert_ne!(a.0, b.0);
    assert_eq!(a.0.len(), 88);
}

fn pending(rt: &str, csrf: &str) -> SessionRecord {
    SessionRecord::Pending(RequestTokenSessionData {
        request_token: rt.to_string(),
        csrf_token: csrf.to_string(),
    })
}

#[test]
fn store_put_get_delete() {
    let mut store = SessionStore::new();
    let key = HashedSessionId(hash("some-session-id"));
    assert!(store.get(&key, 0).is_none());

    store.put(&key, pending("rt", "csrf"), 600, 0);
    match store.get(&key, 10) {
        Some(SessionRecord::Pending(p)) => {
            assert_eq!(p.request_token, "rt");
            assert_eq!(p.csrf_token, "csrf");
        }
        _ => panic!("expected the pending record"),
    }

    store.delete(&key);
    assert!(store.get(&key, 10).is_none());
    // Deleting a missing key is not an error.
    store.delete(&key);
}

#[test]
fn store_overwrites_silently() {
    let mut store = SessionStore::new();
    let key = HashedSessionId(hash("k"));
    store.put(&key, pending("rt1", "c1"), 600, 0);
    store.put(
        &key,
        SessionRecord::Authzed(AuthzedSessionData {
            access_token: "at".to_string(),
            username: Some("u".to_string()),
        }),
        600,
        0,
    );
    match store.get(&key, 10) {
        Some(SessionRecord::Authzed(d)) => assert_eq!(d.access_token, "at"),
        _ => panic!("expected the overwriting record"),
    }
}

#[test]
fn extraction_accepts_only_live_authorized_records() {
    let mut store = SessionStore::new();
    let cookie = "the-session-id";
    let key = HashedSessionId(hash(cookie));

    // Nothing stored: unauthenticated.
    assert!(AuthzedSessionData::from_store(&store, cookie, 0).is_err());

    // A pending record is not a login.
    store.put(&key, pending("rt", "csrf"), 600, 0);
    assert!(AuthzedSessionData::from_store(&store, cookie, 10).is_err());

    // An authorized record is, until it expires.
    store.put(
        &key,
        SessionRecord::Authzed(AuthzedSessionData {
            access_token: "at".to_string(),
            username: Some("u".to_string()),
        }),
        600,
        0,
    );
    let data = AuthzedSessionData::from_store(&store, cookie, 10).unwrap();
    assert_eq!(data.access_token, "at");
    assert_eq!(data.username.as_deref(), Some("u"));
    assert!(AuthzedSessionData::from_store(&store, cookie, 600).is_err());
}

#[test]
fn store_expiry_honored() {
    let mut store = SessionStore::new();
    let key = HashedSessionId(hash("k"));
    store.put(&key, pending("rt", "csrf"), 600, 1000);
    assert!(store.get(&key, 1599).is_some());
    // At the deadline and beyond, the record is unreachable.
    assert!(store.get(&key, 1600).is_none());
    assert!(store.get(&key, 9999).is_none());
}
