//! Session identifiers, the one-way hash that turns them into store keys,
//! and the server-side session store.
//!
//! A session identifier is a random value handed to the browser; the server
//! never keeps it in plaintext.  Every store operation is keyed by the
//! identifier's digest, so compromise of the store's keys yields no usable
//! identifier.  Records expire: a record put with a time-to-live is
//! unreachable once its deadline has passed.

use vstd::prelude::*;
use vstd::hash_map::StringHashMap;
use vstd::string::StringExecFns;

use crate::crypto::{base64_std_of, base64_url_encode, base64_std_encode, random_bytes, sha3_256,
    sha3_256_of};
use crate::error::Error;

verus! {

/// Length in bytes of the randomness behind a session identifier.
pub const SESSION_ID_LEN: usize = 64;

/// Seconds a pending (pre-authorization) record stays reachable.
pub const PENDING_SESSION_TTL_SECONDS: i64 = 600;

/// Seconds an authorized record stays reachable; the companion cookie
/// carries the same lifetime.
pub const AUTHZED_SESSION_TTL_SECONDS: i64 = 3600;

/// A plaintext session identifier, as handed to the browser.
#[derive(Debug, Clone)]
pub struct SessionId(pub String);

/// The one-way hash of a session identifier; the only form the store sees.
#[derive(Debug, Clone)]
pub struct HashedSessionId(pub String);

/// The digest a store key is: base64 of the SHA3-256 of the input.
pub open spec fn spec_hash(s: Seq<char>) -> Seq<char> {
    base64_std_of(sha3_256_of(s))
}

/// One-way hash used for store keys.  Deterministic (a function of the
/// input alone) with a fixed 44-character output whatever the input length.
pub fn hash(input: &str) -> (r: String)
    ensures
        r@ == spec_hash(input@),
        r@.len() == 44,
{
    let digest = sha3_256(input);
    base64_std_encode(digest.as_slice())
}

/// Draws a fresh random session identifier and returns it together with its
/// store key, so callers never re-hash and never persist the plaintext.
pub fn generate_session_id() -> (r: Result<(SessionId, HashedSessionId), Error>)
    ensures
        r matches Ok((sid, hashed)) && hashed.0@ == spec_hash(sid.0@) && sid.0@.len() == 88,
{
    let bytes = random_bytes(SESSION_ID_LEN);
    let encoded = base64_url_encode(bytes.as_slice());
    let hashed = hash(encoded.as_str());
    Ok((SessionId(encoded), HashedSessionId(hashed)))
}

/// Record of a handshake in progress: the external request token being
/// exchanged and the anti-forgery value bound to this handshake.
#[derive(Debug, Clone, PartialEq, Eq)]
pub struct RequestTokenSessionData {
    pub request_token: String,
    pub csrf_token: String,
}

/// Record of a completed login: the externally issued access token and the
/// display name that came with it.
#[derive(Debug, Clone, PartialEq, Eq)]
pub struct AuthzedSessionData {
    pub access_token: String,
    pub username: Option<String>,
}

/// What a store key maps to: one of the two session variants.
#[derive(Debug, Clone, PartialEq, Eq)]
pub enum SessionRecord {
    Pending(RequestTokenSessionData),
    Authzed(AuthzedSessionData),
}

/// A record together with the moment it stops being reachable.
#[derive(Debug, Clone)]
pub struct StoredRecord {
    pub record: SessionRecord,
    pub expires_at: i64,
}

/// The record a lookup at `now` yields: present and not yet expired, or
/// nothing.
pub open spec fn spec_live(m: Map<Seq<char>, StoredRecord>, key: Seq<char>, now: i64) -> Option<
    SessionRecord,
> {
    if m.contains_key(key) && m[key].expires_at > now {
        Some(m[key].record)
    } else {
        None
    }
}

/// Key-value store of session records, keyed by hashed identifiers, with
/// per-record expiry.  It stands for the shared store of the deployment; a
/// single store is assumed.
pub struct SessionStore {
    map: StringHashMap<StoredRecord>,
}

impl View for SessionStore {
    type V = Map<Seq<char>, StoredRecord>;

    closed spec fn view(&self) -> Map<Seq<char>, StoredRecord> {
        self.map@
    }
}

impl SessionStore {
    pub fn new() -> (r: Self)
        ensures
            r@ == Map::<Seq<char>, StoredRecord>::empty(),
    {
        SessionStore { map: StringHashMap::new() }
    }

    /// Upsert: a record already under this key is overwritten silently.
    /// The record stays reachable until `now + ttl_seconds`.
    pub fn put(&mut self, key: &HashedSessionId, record: SessionRecord, ttl_seconds: i64, now: i64)
        requires
            0 < ttl_seconds,
            now <= i64::MAX - ttl_seconds,
        ensures
            final(self)@ == old(self)@.insert(
                key.0@,
                (StoredRecord { record, expires_at: (now + ttl_seconds) as i64 }),
            ),
    {
        let expires_at: i64 = now + ttl_seconds;
        let stored = StoredRecord { record, expires_at };
        self.map.insert(key.0.clone(), stored);
    }

    /// Lookup at time `now`.  A missing or expired key yields `None`: an
    /// ordinary outcome, not an error.
    pub fn get(&self, key: &HashedSessionId, now: i64) -> (r: Option<&SessionRecord>)
        ensures
            match spec_live(self@, key.0@, now) {
                Some(rec) => r matches Some(found) && *found == rec,
                None => r is None,
            },
    {
        match self.map.get(key.0.as_str()) {
            Some(stored) => {
                if stored.expires_at > now {
                    Some(&stored.record)
                } else {
                    None
                }
            },
            None => None,
        }
    }

    /// Idempotent delete: removing a missing key changes nothing.
    pub fn delete(&mut self, key: &HashedSessionId)
        ensures
            final(self)@ == old(self)@.remove(key.0@),
    {
        self.map.remove(key.0.as_str());
    }
}

impl AuthzedSessionData {
    /// The extraction every protected endpoint runs on its inbound cookie:
    /// hash it, look it up, and accept only a live authorized record.  A
    /// missing, expired or still-pending record is an unauthenticated
    /// outcome, never a crash; nothing is mutated.
    pub fn from_store(store: &SessionStore, session_cookie: &str, now: i64) -> (r: Result<
        AuthzedSessionData,
        Error,
    >)
        ensures
            match spec_live(store@, spec_hash(session_cookie@), now) {
                Some(SessionRecord::Authzed(d)) => r matches Ok(data) && data.access_token@
                    == d.access_token@ && (match d.username {
                    Some(u) => data.username matches Some(got) && got@ == u@,
                    None => data.username is None,
                }),
                _ => r matches Err(e) && e is Session,
            },
    {
        let hashed = HashedSessionId(hash(session_cookie));
        match store.get(&hashed, now) {
            Some(SessionRecord::Authzed(d)) => {
                let username = match &d.username {
                    Some(u) => Some(u.clone()),
                    None => None,
                };
                Ok(AuthzedSessionData { access_token: d.access_token.clone(), username })
            },
            _ => Err(Error::Session(String::from_str("no authorized session"))),
        }
    }
}

/// Expiry law: a record whose deadline has passed is unreachable, whatever
/// else the store holds.
pub proof fn lemma_expired_record_unreachable(
    m: Map<Seq<char>, StoredRecord>,
    key: Seq<char>,
    now: i64,
)
    requires
        m.contains_key(key) ==> m[key].expires_at <= now,
    ensures
        spec_live(m, key, now) is None,
{
}

} // verus!
