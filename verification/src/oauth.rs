//! The handshake token: a small claim set signed (HS256) and then encrypted
//! (A256GCMKW key wrap with A256GCM content encryption), carried across the
//! external redirect as one compact string.
//!
//! Issue order is sign-then-encrypt; redemption is decrypt-then-verify, and
//! rejects a token whose issuer is not this service's or whose not-before
//! lies in the future.  All redemption failures surface as one generic
//! token error, so callers cannot be used as a decryption oracle.
//!
//! The signing and encryption calls go to the `biscuit` crate behind trusted
//! bindings; what a token decrypts and verifies to is named by
//! uninterpreted functions of the token and keys alone, and every
//! contract here speaks through those names.

use vstd::prelude::*;
use vstd::string::StringExecFns;

use crate::crypto::{base64_url_nopad_encode, random_bytes};
use crate::error::Error;

verus! {

/// Issuer written into every token this service signs.
pub const JUST_LINKS_ISSUER: &'static str = "https://just-links.dev";

pub open spec fn spec_issuer() -> Seq<char> {
    "https://just-links.dev"@
}

fn expected_issuer() -> (r: String)
    ensures
        r@ == spec_issuer(),
{
    String::from_str(JUST_LINKS_ISSUER)
}

/// The private claims a handshake token carries.
#[derive(Debug, Clone)]
pub struct OAuthState {
    /// Opaque external-authority token being exchanged.
    pub request_token: String,
    /// Plaintext session identifier generated at handshake start.
    pub session_cookie: String,
    /// Anti-forgery value bound to this handshake only.
    pub csrf_token: String,
}

/// Spec-level image of [`OAuthState`].
pub struct OAuthStateView {
    pub request_token: Seq<char>,
    pub session_cookie: Seq<char>,
    pub csrf_token: Seq<char>,
}

impl View for OAuthState {
    type V = OAuthStateView;

    open spec fn view(&self) -> OAuthStateView {
        OAuthStateView {
            request_token: self.request_token@,
            session_cookie: self.session_cookie@,
            csrf_token: self.csrf_token@,
        }
    }
}

/// The full claim set of a token: the private claims plus the registered
/// issuer and not-before.
#[derive(Debug, Clone)]
pub struct HandshakeClaims {
    pub state: OAuthState,
    pub issuer: String,
    pub not_before: i64,
}

/// The five claims of a token as one tuple: request token, session
/// identifier, anti-forgery value, issuer, not-before.
pub open spec fn spec_claims(c: &HandshakeClaims) -> (
    Seq<char>,
    Seq<char>,
    Seq<char>,
    Seq<char>,
    i64,
) {
    (c.state.request_token@, c.state.session_cookie@, c.state.csrf_token@, c.issuer@, c.not_before)
}

/// What parsing a claims document yields: the five claims, or nothing when
/// the text is not a JSON object holding all of them.
pub uninterp spec fn parsed_claims_of(json: Seq<char>) -> Option<
    (Seq<char>, Seq<char>, Seq<char>, Seq<char>, i64),
>;

/// Relies on serde_json::to_string over a JSON object of four strings and an
/// integer: it never fails on a string-keyed object, and parsing the output
/// recovers exactly what was written.  The issuer comes in as an argument,
/// so the protocol's constant stays in checked code.
#[verifier::external_body]
fn claims_json(state: &OAuthState, issuer: &str, not_before: i64) -> (r: Result<String, String>)
    ensures
        r is Ok,
        r matches Ok(s) ==> parsed_claims_of(s@) == Some(
            (state.request_token@, state.session_cookie@, state.csrf_token@, issuer@, not_before),
        ),
{
    let mut m = serde_json::Map::new();
    m.insert(String::from("iss"), serde_json::Value::String(issuer.to_string()));
    m.insert(String::from("nbf"), serde_json::Value::from(not_before));
    m.insert(String::from("requestToken"), serde_json::Value::String(state.request_token.clone()));
    m.insert(String::from("sessionCookie"), serde_json::Value::String(state.session_cookie.clone()));
    m.insert(String::from("csrfToken"), serde_json::Value::String(state.csrf_token.clone()));
    serde_json::to_string(&serde_json::Value::Object(m)).map_err(|e| e.to_string())
}

/// Relies on serde_json::from_str: reads the claims document back; a text
/// missing a claim, or typing one wrongly, is rejected.
#[verifier::external_body]
fn parse_claims_json(json: &str) -> (r: Result<HandshakeClaims, String>)
    ensures
        match r {
            Ok(c) => parsed_claims_of(json@) == Some(spec_claims(&c)),
            Err(_) => parsed_claims_of(json@) is None,
        },
{
    let v: serde_json::Value = serde_json::from_str(json).map_err(|e| e.to_string())?;
    let text = |k: &str| v.get(k).and_then(|x| x.as_str()).map(|x| x.to_string());
    let nbf = v.get("nbf").and_then(|x| x.as_i64());
    match (text("requestToken"), text("sessionCookie"), text("csrfToken"), text("iss"), nbf) {
        (Some(request_token), Some(session_cookie), Some(csrf_token), Some(issuer), Some(not_before)) =>
            Ok(HandshakeClaims {
                state: OAuthState { request_token, session_cookie, csrf_token },
                issuer,
                not_before,
            }),
        _ => Err(String::from("missing claim")),
    }
}

/// What verifying a compact JWS under a secret yields: its payload text, or
/// nothing when the signature, the algorithm header or the encoding is bad.
pub uninterp spec fn jws_payload_of(token: Seq<char>, secret: Seq<u8>) -> Option<Seq<char>>;

/// Relies on biscuit's JWS signing (HS256): with a byte secret it never
/// fails (the HMAC is total), and verifying the signed output under the
/// same secret yields the payload again.
#[verifier::external_body]
fn jws_sign(payload: &str, secret: &[u8]) -> (r: Result<String, String>)
    ensures
        r is Ok,
        r matches Ok(t) ==> jws_payload_of(t@, secret@) == Some(payload@),
{
    let header = biscuit::jws::RegisteredHeader {
        algorithm: biscuit::jwa::SignatureAlgorithm::HS256,
        ..Default::default()
    };
    let c = biscuit::jws::Compact::<Vec<u8>, biscuit::Empty>::new_decoded(
        header.into(),
        payload.as_bytes().to_vec(),
    );
    match c.into_encoded(&biscuit::jws::Secret::Bytes(secret.to_vec())) {
        Ok(biscuit::jws::Compact::Encoded(t)) => Ok(t.encode()),
        Ok(_) => Err(String::from("signing yielded no encoded form")),
        Err(e) => Err(e.to_string()),
    }
}

/// Relies on biscuit's JWS verification (HS256): checks the signature over
/// the token under the secret, rejects any other algorithm header, and
/// returns the payload.
#[verifier::external_body]
fn jws_verify_payload(token: &str, secret: &[u8]) -> (r: Result<String, String>)
    ensures
        match r {
            Ok(s) => jws_payload_of(token@, secret@) == Some(s@),
            Err(_) => jws_payload_of(token@, secret@) is None,
        },
{
    let c = biscuit::jws::Compact::<Vec<u8>, biscuit::Empty>::new_encoded(token);
    let alg = biscuit::jwa::SignatureAlgorithm::HS256;
    match c.into_decoded(&biscuit::jws::Secret::Bytes(secret.to_vec()), alg) {
        Ok(d) => match d.payload() {
            Ok(p) => String::from_utf8(p.clone()).map_err(|e| e.to_string()),
            Err(e) => Err(e.to_string()),
        },
        Err(e) => Err(e.to_string()),
    }
}

/// What decrypting a compact JWE under a key yields: the plaintext, or
/// nothing when the key is wrong, any byte was tampered with, or the
/// algorithm headers are not the expected pair.
pub uninterp spec fn jwe_plaintext_of(token: Seq<char>, key: Seq<u8>) -> Option<Seq<char>>;

/// Relies on biscuit's JWE encryption (A256GCMKW + A256GCM): decrypting the
/// output under the same key yields the plaintext again.
#[verifier::external_body]
fn jwe_encrypt_raw(payload: &str, key: &[u8], nonce: &[u8]) -> (r: Result<String, String>)
    ensures
        r matches Ok(t) ==> jwe_plaintext_of(t@, key@) == Some(payload@),
{
    let cek_algorithm = biscuit::jwa::KeyManagementAlgorithm::A256GCMKW;
    let enc_algorithm = biscuit::jwa::ContentEncryptionAlgorithm::A256GCM;
    let header = biscuit::jwe::RegisteredHeader { cek_algorithm, enc_algorithm, ..Default::default() };
    let payload = payload.as_bytes().to_vec();
    let jwe = biscuit::jwe::Compact::<Vec<u8>, biscuit::Empty>::new_decrypted(header.into(), payload);
    let jwk = biscuit::jwk::JWK::<biscuit::Empty>::new_octet_key(key, Default::default());
    let options = biscuit::jwa::EncryptionOptions::AES_GCM { nonce: nonce.to_vec() };
    match jwe.encrypt(&jwk, &options) {
        Ok(biscuit::jwe::Compact::Encrypted(t)) => Ok(t.encode()),
        Ok(_) => Err(String::from("encryption yielded no compact form")),
        Err(e) => Err(e.to_string()),
    }
}

/// Relies on biscuit's JWE decryption (A256GCMKW + A256GCM): authenticated,
/// so a wrong key or a tampered byte is rejected, and any failure is one
/// generic error.
#[verifier::external_body]
fn jwe_decrypt_raw(token: &str, key: &[u8]) -> (r: Result<String, String>)
    ensures
        match r {
            Ok(s) => jwe_plaintext_of(token@, key@) == Some(s@),
            Err(_) => jwe_plaintext_of(token@, key@) is None,
        },
{
    let jwe = biscuit::jwe::Compact::<Vec<u8>, biscuit::Empty>::new_encrypted(token);
    let jwk = biscuit::jwk::JWK::<biscuit::Empty>::new_octet_key(key, Default::default());
    match jwe.into_decrypted(
        &jwk,
        biscuit::jwa::KeyManagementAlgorithm::A256GCMKW,
        biscuit::jwa::ContentEncryptionAlgorithm::A256GCM,
    ) {
        Ok(d) => match d.payload() {
            Ok(p) => String::from_utf8(p.clone()).map_err(|e| e.to_string()),
            Err(e) => Err(e.to_string()),
        },
        Err(e) => Err(e.to_string()),
    }
}

/// A compact signed token, not yet encrypted.
pub struct JwsEncoded(pub String);

/// The claims a full token yields when it is decrypted under `key` and its
/// inner signature is verified under `secret`; nothing when either step
/// rejects it.
pub open spec fn token_claims(token: Seq<char>, secret: Seq<u8>, key: Seq<u8>) -> Option<
    (Seq<char>, Seq<char>, Seq<char>, Seq<char>, i64),
> {
    match jwe_plaintext_of(token, key) {
        Some(signed) => match jws_payload_of(signed, secret) {
            Some(json) => parsed_claims_of(json),
            None => None,
        },
        None => None,
    }
}

/// Fresh anti-forgery value: 32 random bytes, URL-safe encoded (43
/// characters).  Nothing is promised of the value itself.
pub fn generate_csrf_token() -> (r: String)
    ensures
        r@.len() == 43,
{
    let bytes = random_bytes(32);
    base64_url_nopad_encode(bytes.as_slice())
}

/// Stateless codec for handshake tokens; keys are supplied per call.
pub struct Jwt;

impl Jwt {
    /// Serializes the claims (with this service's issuer and the given
    /// not-before) and signs them under `secret`.  Neither step can fail,
    /// so the signed token is owed.
    pub fn jws_encode(state: &OAuthState, not_before: i64, secret: &[u8]) -> (r: Result<
        JwsEncoded,
        Error,
    >)
        ensures
            r matches Ok(signed) && (jws_payload_of(signed.0@, secret@) matches Some(json)
                && parsed_claims_of(json) == Some(
                (state.request_token@, state.session_cookie@, state.csrf_token@, spec_issuer(), not_before),
            )),
    {
        let json = match claims_json(state, JUST_LINKS_ISSUER, not_before) {
            Ok(json) => json,
            Err(msg) => {
                return Err(Error::Jwt(msg));
            },
        };
        match jws_sign(json.as_str(), secret) {
            Ok(t) => Ok(JwsEncoded(t)),
            Err(msg) => Err(Error::Jwt(msg)),
        }
    }

    /// Encrypts a signed token under `key` with a fresh random nonce.
    pub fn jwe_encrypt(signed: JwsEncoded, key: &[u8]) -> (r: Result<String, Error>)
        ensures
            match r {
                Ok(t) => jwe_plaintext_of(t@, key@) == Some(signed.0@),
                Err(e) => e is Jwt,
            },
    {
        let nonce = random_bytes(12);
        match jwe_encrypt_raw(signed.0.as_str(), key, nonce.as_slice()) {
            Ok(t) => Ok(t),
            Err(msg) => Err(Error::Jwt(msg)),
        }
    }

    /// Decrypts a token under `key`, verifies the inner signature under
    /// `secret`, and reads the claims.  Every failure is the one generic
    /// token error.
    pub fn jwe_decrypt(token: &str, key: &[u8], secret: &[u8]) -> (r: Result<HandshakeClaims, Error>)
        ensures
            match r {
                Ok(c) => token_claims(token@, secret@, key@) == Some(spec_claims(&c)),
                Err(e) => e is Jwt && token_claims(token@, secret@, key@) is None,
            },
    {
        let signed = match jwe_decrypt_raw(token, key) {
            Ok(s) => s,
            Err(msg) => {
                return Err(Error::Jwt(msg));
            },
        };
        let json = match jws_verify_payload(signed.as_str(), secret) {
            Ok(s) => s,
            Err(msg) => {
                return Err(Error::Jwt(msg));
            },
        };
        match parse_claims_json(json.as_str()) {
            Ok(c) => Ok(c),
            Err(msg) => Err(Error::Jwt(msg)),
        }
    }
}

/// What redeeming a token at time `now` yields: the private claims, if the
/// token decrypts, verifies, names this service as issuer, and its
/// not-before has been reached; otherwise nothing.
pub open spec fn redeem_ok(token: Seq<char>, secret: Seq<u8>, key: Seq<u8>, now: i64) -> Option<
    OAuthStateView,
> {
    match token_claims(token, secret, key) {
        Some((request_token, session_cookie, csrf_token, issuer, not_before)) => {
            if issuer == spec_issuer() && not_before <= now {
                Some(OAuthStateView { request_token, session_cookie, csrf_token })
            } else {
                None
            }
        },
        None => None,
    }
}

impl OAuthState {
    pub fn new(request_token: String, session_cookie: String, csrf_token: String) -> (r: Self)
        ensures
            r.request_token == request_token,
            r.session_cookie == session_cookie,
            r.csrf_token == csrf_token,
    {
        Self { request_token, session_cookie, csrf_token }
    }

    /// Issues a handshake token carrying these claims: sign under
    /// `jws_secret`, then encrypt under `jwe_key`.  The token is fresh each
    /// call (random nonce), but always redeems to exactly these claims.
    /// Signing is total, so only the encryption step (a malformed key) can
    /// fail.
    pub fn into_token(self, jws_secret: &[u8], jwe_key: &[u8], not_before: i64) -> (r: Result<
        String,
        Error,
    >)
        ensures
            match r {
                Ok(t) => token_claims(t@, jws_secret@, jwe_key@) == Some(
                    (self.request_token@, self.session_cookie@, self.csrf_token@, spec_issuer(), not_before),
                ),
                Err(e) => e is Jwt,
            },
    {
        let signed = match Jwt::jws_encode(&self, not_before, jws_secret) {
            Ok(signed) => signed,
            Err(e) => {
                return Err(e);
            },
        };
        Jwt::jwe_encrypt(signed, jwe_key)
    }

    /// Redeems a handshake token: decrypt, verify, then reject a foreign
    /// issuer or a not-before in the future.  Exactly the tokens for which
    /// [`redeem_ok`] gives claims are accepted; every failure is the one
    /// generic token error.
    pub fn from_token(token: &str, jws_secret: &[u8], jwe_key: &[u8], now: i64) -> (r: Result<
        Self,
        Error,
    >)
        ensures
            match r {
                Ok(state) => redeem_ok(token@, jws_secret@, jwe_key@, now) == Some(state@),
                Err(e) => e is Jwt && redeem_ok(token@, jws_secret@, jwe_key@, now) is None,
            },
    {
        let claims = match Jwt::jwe_decrypt(token, jwe_key, jws_secret) {
            Ok(c) => c,
            Err(e) => {
                return Err(e);
            },
        };
        if claims.issuer == expected_issuer() && claims.not_before <= now {
            Ok(claims.state)
        } else {
            Err(Error::Jwt(String::from_str("token claims rejected")))
        }
    }
}

/// Round-trip law: a token issued over claims `c` with this service's
/// issuer and a not-before at or before `now` redeems to exactly `c`'s
/// private claims — what `into_token` ensures of its output is precisely
/// what `from_token` requires to accept it.
pub proof fn lemma_issue_redeem_round_trip(
    token: Seq<char>,
    state: OAuthStateView,
    not_before: i64,
    secret: Seq<u8>,
    key: Seq<u8>,
    now: i64,
)
    requires
        token_claims(token, secret, key) == Some(
            (state.request_token, state.session_cookie, state.csrf_token, spec_issuer(), not_before),
        ),
        not_before <= now,
    ensures
        redeem_ok(token, secret, key, now) == Some(state),
{
}

} // verus!
