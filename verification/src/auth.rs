//! The handshake orchestrator: the steps between "a request token was
//! obtained" and "an authorized session exists", and the session probe used
//! by `/auth/session`.
//!
//! The calls to the external authority themselves (obtaining a request
//! token, exchanging it for an access token) are I/O and live outside the
//! library; the functions here take their results as plain values and make
//! every decision of the protocol: what is stored under which hashed key,
//! what the redirect carries, which tokens are accepted, when the pending
//! record is deleted, and how the session rotates.

use vstd::prelude::*;
use vstd::string::StringExecFns;

use crate::crypto::constant_time_eq;
use crate::error::{ApiError, Error};
use crate::oauth::{generate_csrf_token, redeem_ok, spec_issuer, token_claims, OAuthState,
    OAuthStateView};
use crate::session::{generate_session_id, hash, spec_hash, spec_live, AuthzedSessionData,
    HashedSessionId, RequestTokenSessionData, SessionId, SessionRecord, SessionStore,
    AUTHZED_SESSION_TTL_SECONDS, PENDING_SESSION_TTL_SECONDS};
use crate::{Config, TypedResponse, SESSION_ID_COOKIE_NAME};

verus! {

/// Page of the external authority where the browser authorizes the request
/// token.
pub const POCKET_AUTHORIZE_URL: &'static str = "https://getpocket.com/auth/authorize";

/// Shape of the redirect target: the authorization page, the request token,
/// the callback with the handshake token nested as its query (the `?` is
/// percent-encoded because it stands inside another query parameter; the
/// token itself is compact base64url and dots, which need no escaping), and
/// the token once more as a plain parameter.
pub open spec fn spec_auth_uri(code: Seq<char>, redirect: Seq<char>, token: Seq<char>) -> Seq<
    char,
> {
    "https://getpocket.com/auth/authorize"@ + "?request_token="@ + code + "&redirect_uri="@
        + redirect + "%3Fstate="@ + token + "&state="@ + token
}

/// Builds the redirect target for the external authorization page.
pub fn build_auth_uri(request_token: &str, redirect_url: &str, token: &str) -> (r: String)
    ensures
        r@ == spec_auth_uri(request_token@, redirect_url@, token@),
{
    let mut uri = String::from_str(POCKET_AUTHORIZE_URL);
    uri.append("?request_token=");
    uri.append(request_token);
    uri.append("&redirect_uri=");
    uri.append(redirect_url);
    uri.append("%3Fstate=");
    uri.append(token);
    uri.append("&state=");
    uri.append(token);
    assert(uri@ =~= spec_auth_uri(request_token@, redirect_url@, token@));
    uri
}

/// Shape of the session cookie: HTTP-only, secure, lax, path-scoped, with a
/// lifetime equal to [`AUTHZED_SESSION_TTL_SECONDS`] (the `Max-Age` digits
/// spell that constant).
pub open spec fn spec_session_cookie(sid: Seq<char>) -> Seq<char> {
    "ID"@ + "="@ + sid + "; HttpOnly; Secure; SameSite=Lax; Path=/; Max-Age=3600"@
}

/// Builds the `Set-Cookie` value carrying a fresh plaintext session
/// identifier.
pub fn build_session_cookie(session_id: &SessionId) -> (r: String)
    ensures
        r@ == spec_session_cookie(session_id.0@),
{
    let mut cookie = String::from_str(SESSION_ID_COOKIE_NAME);
    cookie.append("=");
    cookie.append(session_id.0.as_str());
    cookie.append("; HttpOnly; Secure; SameSite=Lax; Path=/; Max-Age=3600");
    assert(cookie@ =~= spec_session_cookie(session_id.0@));
    cookie
}

/// Response of the handshake-starting endpoint, when it answers with a body
/// instead of a bare redirect.
#[derive(Debug, Clone)]
pub struct GetRequestTokenResponse {
    pub request_token: String,
    pub auth_uri: String,
}

/// Body of a redemption request: the handshake token echoed back by the
/// external authority.
#[derive(Debug, Clone)]
pub struct GetAccessTokenRequest {
    pub state: String,
}

/// Body of a successful redemption response.
#[derive(Debug, Clone)]
pub struct GetAccessTokenResponse {
    pub username: String,
}

/// Body of the session probe: whether a live authorized session backs the
/// cookie, and whose.
#[derive(Debug, Clone)]
pub struct GetSessionResponse {
    pub has_session: bool,
    pub username: Option<String>,
}

/// Everything the first handshake step produces.  The browser only ever
/// sees `response`; the other fields are what the protocol generated and
/// exist so callers (and the contracts) can speak of them.
pub struct HandshakeStart {
    pub session_id: SessionId,
    pub hashed_session_id: HashedSessionId,
    pub csrf_token: String,
    pub token: String,
    pub auth_uri: String,
    pub response: TypedResponse<()>,
}

/// First step of the handshake, entered with the request token the external
/// authority just issued.  Generates an anti-forgery value and a session
/// identifier, issues the handshake token over them, stores a pending
/// record under the hashed identifier, and shapes the `303` redirect.  The
/// token is issued before the record is stored, so a failed issue leaves
/// the store untouched.
pub fn begin_handshake(
    request_token: String,
    redirect_url: &str,
    config: &Config,
    store: &mut SessionStore,
    now: i64,
) -> (r: Result<HandshakeStart, Error>)
    requires
        now <= i64::MAX - PENDING_SESSION_TTL_SECONDS,
    ensures
        match r {
            Ok(out) => {
                &&& out.hashed_session_id.0@ == spec_hash(out.session_id.0@)
                &&& token_claims(
                    out.token@,
                    config.jws_signing_secret@,
                    config.jwe_encryption_key@,
                ) == Some(
                    (request_token@, out.session_id.0@, out.csrf_token@, spec_issuer(), now),
                )
                &&& final(store)@.contains_key(out.hashed_session_id.0@)
                &&& final(store)@[out.hashed_session_id.0@].expires_at == now
                    + PENDING_SESSION_TTL_SECONDS
                &&& (final(store)@[out.hashed_session_id.0@].record matches
                    SessionRecord::Pending(p) && p.request_token@ == request_token@
                    && p.csrf_token@ == out.csrf_token@)
                &&& final(store)@ == old(store)@.insert(
                    out.hashed_session_id.0@,
                    final(store)@[out.hashed_session_id.0@],
                )
                &&& out.auth_uri@ == spec_auth_uri(request_token@, redirect_url@, out.token@)
                &&& out.response.status_code == 303
                &&& out.response.body is None
                &&& (out.response.headers matches Some(h) && h@.len() == 1 && h@[0].0@
                    == "location"@ && h@[0].1@ == out.auth_uri@)
            },
            Err(e) => e is Jwt && final(store)@ == old(store)@,
        },
{
    let csrf_token = generate_csrf_token();
    let (session_id, hashed_session_id) = match generate_session_id() {
        Ok(pair) => pair,
        Err(e) => {
            return Err(e);
        },
    };
    let claims = OAuthState::new(
        request_token.clone(),
        session_id.0.clone(),
        csrf_token.clone(),
    );
    let token = match claims.into_token(
        config.jws_signing_secret.as_slice(),
        config.jwe_encryption_key.as_slice(),
        now,
    ) {
        Ok(token) => token,
        Err(e) => {
            return Err(e);
        },
    };
    let pending = RequestTokenSessionData {
        request_token: request_token.clone(),
        csrf_token: csrf_token.clone(),
    };
    store.put(
        &hashed_session_id,
        SessionRecord::Pending(pending),
        PENDING_SESSION_TTL_SECONDS,
        now,
    );
    let auth_uri = build_auth_uri(request_token.as_str(), redirect_url, token.as_str());
    let mut headers: Vec<(String, String)> = Vec::new();
    headers.push((String::from_str("location"), auth_uri.clone()));
    let response = TypedResponse::new(None).headers(Some(headers)).status_code(303);
    Ok(HandshakeStart { session_id, hashed_session_id, csrf_token, token, auth_uri, response })
}

enum PendingLookup {
    Missing,
    NotPending,
    Mismatch,
    Matched,
}

/// Redemption steps of the handshake, up to the point where the external
/// exchange becomes possible: redeem the echoed token, load the pending
/// record under the hashed identifier the claims carry, and compare
/// anti-forgery values — position by position without an early exit, so the
/// comparison's timing names no position.  On a mismatch the pending record is deleted at
/// once, so an observed failure cannot be retried with the same stolen
/// token; on every other failure the store is untouched.  Success returns
/// the claims, whose embedded request token (never one taken from the
/// inbound request) feeds the exchange.
///
/// Two redemptions racing on one pending record can both pass the
/// comparison before either completes; the delete in
/// [`complete_handshake`] is the best-effort single-use gate, and at most
/// one extra exchange is the accepted residual risk.
pub fn redeem_handshake(
    token: &str,
    config: &Config,
    store: &mut SessionStore,
    now: i64,
) -> (r: Result<OAuthState, Error>)
    ensures
        match redeem_ok(token@, config.jws_signing_secret@, config.jwe_encryption_key@, now) {
            None => r matches Err(e) && e matches Error::Api(ApiError::BadRequest(_))
                && final(store)@ == old(store)@,
            Some(claims) => match spec_live(old(store)@, spec_hash(claims.session_cookie), now) {
                None => r matches Err(e) && e is Session && final(store)@ == old(store)@,
                Some(SessionRecord::Authzed(_)) => r matches Err(e) && e is Session
                    && final(store)@ == old(store)@,
                Some(SessionRecord::Pending(p)) => {
                    if p.csrf_token@ == claims.csrf_token {
                        r matches Ok(state) && state@ == claims && final(store)@ == old(store)@
                    } else {
                        r matches Err(e) && e matches Error::Api(ApiError::Unauthorized(_))
                            && final(store)@ == old(store)@.remove(spec_hash(claims.session_cookie))
                    }
                },
            },
        },
{
    let state = match OAuthState::from_token(
        token,
        config.jws_signing_secret.as_slice(),
        config.jwe_encryption_key.as_slice(),
        now,
    ) {
        Ok(state) => state,
        Err(_) => {
            return Err(Error::Api(ApiError::BadRequest(String::from_str(
                "invalid handshake token",
            ))));
        },
    };
    let hashed = HashedSessionId(hash(state.session_cookie.as_str()));
    let lookup = match store.get(&hashed, now) {
        None => PendingLookup::Missing,
        Some(SessionRecord::Authzed(_)) => PendingLookup::NotPending,
        Some(SessionRecord::Pending(p)) => {
            if constant_time_eq(p.csrf_token.as_str(), state.csrf_token.as_str()) {
                PendingLookup::Matched
            } else {
                PendingLookup::Mismatch
            }
        },
    };
    match lookup {
        PendingLookup::Missing | PendingLookup::NotPending => Err(Error::Session(
            String::from_str("no pending session for this handshake"),
        )),
        PendingLookup::Mismatch => {
            store.delete(&hashed);
            Err(Error::Api(ApiError::Unauthorized(String::from_str("CSRF token doesn't match"))))
        },
        PendingLookup::Matched => Ok(state),
    }
}

/// Everything the final handshake step produces.
pub struct HandshakeComplete {
    pub session_id: SessionId,
    pub hashed_session_id: HashedSessionId,
    pub cookie: String,
    pub response: TypedResponse<GetAccessTokenResponse>,
}

/// Final step of the handshake, entered after the external authority
/// exchanged the request token for an access token.  Deletes the pending
/// record, stores an authorized record under a fresh hashed identifier —
/// the identifier itself rotates on privilege escalation — and shapes the
/// response carrying the username and the new session cookie.
pub fn complete_handshake(
    state: &OAuthState,
    access_token: String,
    username: String,
    store: &mut SessionStore,
    now: i64,
) -> (r: Result<HandshakeComplete, Error>)
    requires
        now <= i64::MAX - AUTHZED_SESSION_TTL_SECONDS,
    ensures
        r matches Ok(out) && {
            let old_key = spec_hash(state.session_cookie@);
            let new_key = out.hashed_session_id.0@;
            &&& out.hashed_session_id.0@ == spec_hash(out.session_id.0@)
            &&& final(store)@.contains_key(new_key)
            &&& final(store)@[new_key].expires_at == now + AUTHZED_SESSION_TTL_SECONDS
            &&& (final(store)@[new_key].record matches SessionRecord::Authzed(d)
                && d.access_token@ == access_token@ && (d.username matches Some(u) && u@
                == username@))
            &&& final(store)@ == old(store)@.remove(old_key).insert(
                new_key,
                final(store)@[new_key],
            )
            &&& new_key != old_key ==> !final(store)@.contains_key(old_key)
            &&& out.cookie@ == spec_session_cookie(out.session_id.0@)
            &&& out.response.status_code == 200
            &&& (out.response.body matches Some(b) && b.username@ == username@)
            &&& (out.response.headers matches Some(h) && h@.len() == 1 && h@[0].0@
                == "set-cookie"@ && h@[0].1@ == out.cookie@)
        },
{
    let old_hashed = HashedSessionId(hash(state.session_cookie.as_str()));
    store.delete(&old_hashed);
    let (session_id, hashed_session_id) = match generate_session_id() {
        Ok(pair) => pair,
        Err(e) => {
            return Err(e);
        },
    };
    let authzed = AuthzedSessionData { access_token, username: Some(username.clone()) };
    store.put(
        &hashed_session_id,
        SessionRecord::Authzed(authzed),
        AUTHZED_SESSION_TTL_SECONDS,
        now,
    );
    let cookie = build_session_cookie(&session_id);
    let mut headers: Vec<(String, String)> = Vec::new();
    headers.push((String::from_str("set-cookie"), cookie.clone()));
    let response = TypedResponse::new(Some(GetAccessTokenResponse { username })).headers(
        Some(headers),
    );
    Ok(HandshakeComplete { session_id, hashed_session_id, cookie, response })
}

/// The session probe behind `GET /auth/session`: never errors; a missing
/// cookie, a missing or expired record, or a record that is still pending
/// all yield "no session".
pub fn get_session(
    store: &SessionStore,
    session_cookie: Option<&String>,
    now: i64,
) -> (r: TypedResponse<GetSessionResponse>)
    ensures
        r.status_code == 200,
        r.headers is None,
        r.body matches Some(b) && (match session_cookie {
            Some(cookie) => match spec_live(store@, spec_hash(cookie@), now) {
                Some(SessionRecord::Authzed(d)) => b.has_session && (match d.username {
                    Some(u) => b.username matches Some(bu) && bu@ == u@,
                    None => b.username is None,
                }),
                _ => !b.has_session && b.username is None,
            },
            None => !b.has_session && b.username is None,
        }),
{
    let cookie = match session_cookie {
        Some(cookie) => cookie,
        None => {
            return TypedResponse::new(
                Some(GetSessionResponse { has_session: false, username: None }),
            );
        },
    };
    let hashed = HashedSessionId(hash(cookie.as_str()));
    match store.get(&hashed, now) {
        Some(SessionRecord::Authzed(d)) => {
            let username = match &d.username {
                Some(u) => Some(u.clone()),
                None => None,
            };
            TypedResponse::new(Some(GetSessionResponse { has_session: true, username }))
        },
        _ => TypedResponse::new(Some(GetSessionResponse { has_session: false, username: None })),
    }
}

/// Start-to-redeem law: a handshake that just started redeems against the
/// store it produced.  What [`begin_handshake`] ensures of its outputs — a
/// token carrying this service's issuer and the start time, and a pending
/// record under the hashed identifier — is exactly what makes
/// [`redeem_handshake`] accept: until the record expires, the token yields
/// its claims and the stored anti-forgery value matches theirs.
pub proof fn lemma_started_handshake_redeems(
    store_after: Map<Seq<char>, crate::session::StoredRecord>,
    request_token: Seq<char>,
    session_id: Seq<char>,
    csrf_token: Seq<char>,
    token: Seq<char>,
    secret: Seq<u8>,
    key: Seq<u8>,
    issued_at: i64,
    now: i64,
)
    requires
        token_claims(token, secret, key) == Some(
            (request_token, session_id, csrf_token, spec_issuer(), issued_at),
        ),
        store_after.contains_key(spec_hash(session_id)),
        store_after[spec_hash(session_id)].expires_at > now,
        store_after[spec_hash(session_id)].record matches SessionRecord::Pending(p)
            && p.csrf_token@ == csrf_token,
        issued_at <= now,
    ensures
        redeem_ok(token, secret, key, now) == Some(
            (OAuthStateView { request_token, session_cookie: session_id, csrf_token }),
        ),
        spec_live(store_after, spec_hash(session_id), now) matches Some(rec) && (rec matches
            SessionRecord::Pending(p) && p.csrf_token@ == csrf_token),
{
}

/// Anti-forgery law: the store after a failed comparison holds no record it
/// did not hold before — in particular no authorized record was created —
/// since deleting the pending record is its only change.
pub proof fn lemma_csrf_mismatch_creates_nothing(
    before: Map<Seq<char>, crate::session::StoredRecord>,
    after: Map<Seq<char>, crate::session::StoredRecord>,
    key: Seq<char>,
)
    requires
        after == before.remove(key),
    ensures
        forall|k: Seq<char>| #[trigger] after.contains_key(k) ==> before.contains_key(k)
            && after[k] == before[k],
{
}

/// Rotation law: once a handshake completes, the old hashed key is absent
/// from the store (its lookup misses) and the fresh key holds the
/// authorized record, provided the fresh key differs from the old one.
pub proof fn lemma_session_rotation(
    before: Map<Seq<char>, crate::session::StoredRecord>,
    after: Map<Seq<char>, crate::session::StoredRecord>,
    old_key: Seq<char>,
    new_key: Seq<char>,
    stored: crate::session::StoredRecord,
    now: i64,
)
    requires
        after == before.remove(old_key).insert(new_key, stored),
        new_key != old_key,
    ensures
        !after.contains_key(old_key),
        spec_live(after, old_key, now) is None,
        after.contains_key(new_key) && after[new_key] == stored,
{
}

} // verus!
