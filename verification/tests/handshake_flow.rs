//! Scenario tests of the orchestrator: the full handshake, anti-forgery
//! enforcement, session rotation, expiry, and never-issued tokens.

use just_links::auth::{begin_handshake, complete_handshake, get_session, redeem_handshake};
use just_links::error::{ApiError, Error};
use just_links::oauth::OAuthState;
use just_links::session::SessionStore;
use just_links::Config;

fn config() -> Config {
    Config {
        jws_signing_secret: b"secret".to_vec(),
        jwe_encryption_key: b"i0N1ZdPuPFMjD/iJljE1p+JWZt/1uwSb".to_vec(),
    }
}

#[test]
fn end_to_end_handshake() {
    let config = config();
    let mut store = SessionStore::new();

    // Start: a 303 redirect, no cookie yet.
    let start = begin_handshake(
        "req-token".to_string(),
        "https://app.example/callback",
        &config,
        &mut store,
        1000,
    )
    .unwrap();
    assert_eq!(start.response.status_code, 303);
    assert!(start.response.body.is_none());
    assert_eq!(start.csrf_token.len(), 43);
    assert_eq!(start.session_id.0.len(), 88);
    let headers = start.response.headers.as_ref().unwrap();
    assert_eq!(headers.len(), 1);
    assert_eq!(headers[0].0, "location");
    assert_eq!(headers[0].1, start.auth_uri);
    assert_eq!(
        start.auth_uri,
        format!(
            "https://getpocket.com/auth/authorize?request_token=req-token&redirect_uri=https://app.example/callback%3Fstate={t}&state={t}",
            t = start.token
        )
    );

    // Redemption: token echoed back, claims recovered, pending record found.
    let state = redeem_handshake(&start.token, &config, &mut store, 1100).unwrap();
    assert_eq!(state.request_token, "req-token");
    assert_eq!(state.session_cookie, start.session_id.0);
    assert_eq!(state.csrf_token, start.csrf_token);

    // The external exchange happened outside; completion rotates the session.
    let done = complete_handshake(
        &state,
        "access-token".to_string(),
        "alice".to_string(),
        &mut store,
        1200,
    )
    .unwrap();
    assert_eq!(done.response.status_code, 200);
    assert_eq!(done.response.body.as_ref().unwrap().username, "alice");
    let headers = done.response.headers.as_ref().unwrap();
    assert_eq!(headers[0].0, "set-cookie");
    assert_eq!(
        headers[0].1,
        format!(
            "ID={}; HttpOnly; Secure; SameSite=Lax; Path=/; Max-Age=3600",
            done.session_id.0
        )
    );
    assert_eq!(done.cookie, headers[0].1);

    // The rotated identifier differs and the old key is gone.
    assert_ne!(done.session_id.0, start.session_id.0);
    assert!(store.get(&start.hashed_session_id, 1300).is_none());

    // The probe sees the new session.
    let probe = get_session(&store, Some(&done.session_id.0), 1300);
    assert_eq!(probe.status_code, 200);
    let body = probe.body.unwrap();
    assert!(body.has_session);
    assert_eq!(body.username.as_deref(), Some("alice"));

    // The probe never errors: the old cookie now yields "no session".
    let probe = get_session(&store, Some(&start.session_id.0), 1300);
    let body = probe.body.unwrap();
    assert!(!body.has_session);
    assert!(body.username.is_none());
}

#[test]
fn csrf_mismatch_rejected_and_pending_consumed() {
    let config = config();
    let mut store = SessionStore::new();
    let start = begin_handshake(
        "req-token".to_string(),
        "https://app.example/cb",
        &config,
        &mut store,
        0,
    )
    .unwrap();

    // A token with the right session identifier but a foreign anti-forgery
    // value: validly encrypted, yet it must be turned away.
    let forged = OAuthState::new(
        "req-token".to_string(),
        start.session_id.0.clone(),
        "some-other-csrf-token".to_string(),
    )
    .into_token(&config.jws_signing_secret, &config.jwe_encryption_key, 0)
    .unwrap();

    let refused = redeem_handshake(&forged, &config, &mut store, 10);
    assert!(matches!(
        refused,
        Err(Error::Api(ApiError::Unauthorized(_)))
    ));

    // No authorized record was created, and the pending record was deleted
    // at once: even the genuine token cannot be redeemed any more.
    assert!(store.get(&start.hashed_session_id, 10).is_none());
    let after = redeem_handshake(&start.token, &config, &mut store, 10);
    assert!(matches!(after, Err(Error::Session(_))));
}

#[test]
fn pending_expiry_fails_redemption() {
    let config = config();
    let mut store = SessionStore::new();
    let start = begin_handshake(
        "req-token".to_string(),
        "https://app.example/cb",
        &config,
        &mut store,
        0,
    )
    .unwrap();

    // Within the time-to-live the pending record is reachable.
    assert!(store.get(&start.hashed_session_id, 599).is_some());

    // Past it, the record is unreachable and redemption reports an expired
    // session.
    assert!(store.get(&start.hashed_session_id, 600).is_none());
    let refused = redeem_handshake(&start.token, &config, &mut store, 600);
    match refused {
        Err(e @ Error::Session(_)) => assert_eq!(e.status_code(), 401),
        other => panic!("expected an expired-session failure, got {other:?}"),
    }
}

#[test]
fn never_issued_token_rejected_without_mutation() {
    let config = config();
    let mut store = SessionStore::new();

    // Syntactically valid and correctly encrypted, but no handshake ever
    // started: no pending record exists.
    let minted = OAuthState::new(
        "req-token".to_string(),
        "never-stored-session-id".to_string(),
        "csrf".to_string(),
    )
    .into_token(&config.jws_signing_secret, &config.jwe_encryption_key, 0)
    .unwrap();
    let refused = redeem_handshake(&minted, &config, &mut store, 10);
    match refused {
        Err(e @ Error::Session(_)) => assert_eq!(e.status_code(), 401),
        other => panic!("expected a missing-session failure, got {other:?}"),
    }

    // Not even a valid ciphertext: rejected as a bad request.
    let refused = redeem_handshake("junk-token", &config, &mut store, 10);
    match refused {
        Err(e @ Error::Api(ApiError::BadRequest(_))) => assert_eq!(e.status_code(), 400),
        other => panic!("expected a bad-token failure, got {other:?}"),
    }

    // No cookie was set and no session exists afterwards.
    let probe = get_session(&store, Some(&"never-stored-session-id".to_string()), 10);
    assert!(!probe.body.unwrap().has_session);
}

#[test]
fn error_responses_carry_category_and_status() {
    assert_eq!(Error::Cookie("c".into()).status_code(), 400);
    assert_eq!(Error::Cookie("c".into()).category(), "Bad Request");
    assert_eq!(
        Error::Api(ApiError::BadRequest("b".into())).status_code(),
        400
    );
    assert_eq!(
        Error::Api(ApiError::Unauthorized("u".into())).status_code(),
        401
    );
    assert_eq!(
        Error::Api(ApiError::Unauthorized("u".into())).category(),
        "Unauthorized"
    );
    // A missing or expired session is an authorization failure, never a
    // server error.
    assert_eq!(Error::Session("s".into()).status_code(), 401);
    assert_eq!(Error::Session("s".into()).category(), "Unauthorized");
    // The external authority failing is a gateway condition.
    assert_eq!(Error::Pocket("p".into()).status_code(), 502);
    assert_eq!(Error::Pocket("p".into()).category(), "Bad Gateway");
    assert_eq!(Error::Jwt("j".into()).status_code(), 500);
    assert_eq!(
        Error::Api(ApiError::InternalServerError("i".into())).category(),
        "Internal Server Error"
    );
}

#[test]
fn missing_cookie_yields_no_session() {
    let store = SessionStore::new();
    let probe = get_session(&store, None, 0);
    assert_eq!(probe.status_code, 200);
    let body = probe.body.unwrap();
    assert!(!body.has_session);
    assert!(body.username.is_none());
}
