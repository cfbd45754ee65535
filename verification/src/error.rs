//! Error taxonomy of the service and its mapping to client-visible responses.
//!
//! Internal detail (the `String` payloads) never reaches a client: the
//! response carries only a status code and a fixed category string.

use vstd::prelude::*;

verus! {

/// Client-visible error classes carried inside [`Error::Api`].
#[derive(Debug, Clone)]
pub enum ApiError {
    BadRequest(String),
    InternalServerError(String),
    Unauthorized(String),
}

/// Everything a handler can fail with.
#[derive(Debug, Clone)]
pub enum Error {
    /// A cookie was missing or malformed.
    Cookie(String),
    /// No usable session: the lookup missed, the record had expired, or it
    /// was of the wrong kind.
    Session(String),
    /// The external authority was unreachable or rejected a call.
    Pocket(String),
    /// A handshake token could not be issued or redeemed.
    Jwt(String),
    /// An error already classified for the client.
    Api(ApiError),
}

impl Error {
    /// The HTTP status code a response for this error carries.  Bad cookies
    /// and malformed requests are the client's fault (400); a missing,
    /// expired or mismatching session is an authorization failure (401),
    /// never a server error; the external authority failing is a gateway
    /// condition (502); only the unanticipated remains a 500.
    pub fn status_code(&self) -> (code: u16)
        ensures
            code == self.spec_status_code(),
    {
        match self {
            Error::Cookie(_) => 400,
            Error::Api(ApiError::BadRequest(_)) => 400,
            Error::Session(_) => 401,
            Error::Api(ApiError::Unauthorized(_)) => 401,
            Error::Pocket(_) => 502,
            _ => 500,
        }
    }

    pub open spec fn spec_status_code(&self) -> u16 {
        match self {
            Error::Cookie(_) => 400u16,
            Error::Api(ApiError::BadRequest(_)) => 400u16,
            Error::Session(_) => 401u16,
            Error::Api(ApiError::Unauthorized(_)) => 401u16,
            Error::Pocket(_) => 502u16,
            _ => 500u16,
        }
    }

    /// The category string a response body for this error carries; it leaks
    /// nothing of the internal message.
    pub fn category(&self) -> (msg: &'static str)
        ensures
            msg@ == self.spec_category(),
    {
        match self {
            Error::Cookie(_) => "Bad Request",
            Error::Api(ApiError::BadRequest(_)) => "Bad Request",
            Error::Session(_) => "Unauthorized",
            Error::Api(ApiError::Unauthorized(_)) => "Unauthorized",
            Error::Pocket(_) => "Bad Gateway",
            _ => "Internal Server Error",
        }
    }

    pub open spec fn spec_category(&self) -> Seq<char> {
        match self {
            Error::Cookie(_) => "Bad Request"@,
            Error::Api(ApiError::BadRequest(_)) => "Bad Request"@,
            Error::Session(_) => "Unauthorized"@,
            Error::Api(ApiError::Unauthorized(_)) => "Unauthorized"@,
            Error::Pocket(_) => "Bad Gateway"@,
            _ => "Internal Server Error"@,
        }
    }
}

} // verus!
