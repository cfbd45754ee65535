//! Authentication handshake and session-lifecycle core of a small web service
//! that lets a user authorize a third-party content account.
//!
//! The library verifies the pieces that carry security weight: the
//! signed-then-encrypted handshake token that crosses the external redirect
//! (`oauth`), the hashed-identifier session store with expiry (`session`),
//! and the orchestration rules that tie them together (`auth`).  Network I/O,
//! HTTP routing and the third-party client live outside the library.

use vstd::prelude::*;

pub mod articles;
pub mod auth;
pub mod crypto;
pub mod error;
pub mod oauth;
pub mod session;

verus! {

/// Name of the cookie that carries the plaintext session identifier.
pub const SESSION_ID_COOKIE_NAME: &'static str = "ID";

/// What every handler computation yields: a shaped response, or an error
/// for the boundary to map.
pub type ApiResult<R> = Result<TypedResponse<R>, error::Error>;

/// A response as the handlers shape it: an optional body, optional headers
/// (name/value pairs), and a status code.  Turning this into a framework
/// response is left to unverified glue.
#[derive(Debug, Clone)]
pub struct TypedResponse<B> {
    pub body: Option<B>,
    pub headers: Option<Vec<(String, String)>>,
    pub status_code: u16,
}

impl<B> TypedResponse<B> {
    pub fn new(body: Option<B>) -> (r: Self)
        ensures
            r.body == body,
            r.headers is None,
            r.status_code == 200,
    {
        TypedResponse { body, headers: None, status_code: 200 }
    }

    pub fn headers(self, headers: Option<Vec<(String, String)>>) -> (r: Self)
        ensures
            r.body == self.body,
            r.headers == headers,
            r.status_code == self.status_code,
    {
        Self { headers, ..self }
    }

    pub fn status_code(self, status_code: u16) -> (r: Self)
        ensures
            r.body == self.body,
            r.headers == self.headers,
            r.status_code == status_code,
    {
        Self { status_code, ..self }
    }
}

impl<B> Default for TypedResponse<B> {
    fn default() -> (r: Self)
        ensures
            r.body is None,
            r.headers is None,
            r.status_code == 200,
    {
        Self { body: None, headers: None, status_code: 200 }
    }
}

/// Key material the token codec works with: the symmetric signing secret
/// and the 32-byte content-encryption key.
#[derive(Debug, Clone)]
pub struct Config {
    pub jws_signing_secret: Vec<u8>,
    pub jwe_encryption_key: Vec<u8>,
}

/// Rate-limit counters reported by the external authority.
#[derive(Debug, Clone, Copy)]
pub struct RateLimits {
    pub user_limit: Option<u32>,
    pub user_remaining: Option<u32>,
    pub user_reset: Option<u32>,
}

/// A payload together with the rate limits that were current when it was
/// fetched.
#[derive(Debug, Clone, Copy)]
pub struct WithRateLimits<T> {
    pub rate_limits: RateLimits,
    pub data: T,
}

} // verus!
