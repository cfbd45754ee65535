//! Trusted bindings to the cryptographic helper crates: a one-way digest,
//! base64 encoders, and a secure random source.
//!
//! Each binding carries the contract the rest of the library is proved
//! against.  Results that no short formula can state are given a name
//! (an uninterpreted function of the input alone).

use vstd::prelude::*;

use base64::Engine;
use base64ct::Encoding;
use rand::RngCore;
use sha3::Digest;

verus! {

/// The SHA3-256 digest of the UTF-8 bytes of a character sequence.
pub uninterp spec fn sha3_256_of(s: Seq<char>) -> Seq<u8>;

/// Relies on sha3::Sha3_256: the digest is a function of the input bytes
/// alone and is 32 bytes long.
#[verifier::external_body]
pub(crate) fn sha3_256(input: &str) -> (r: Vec<u8>)
    ensures
        r@ == sha3_256_of(input@),
        r@.len() == 32,
{
    let mut hasher = sha3::Sha3_256::new();
    hasher.update(input);
    hasher.finalize().to_vec()
}

/// The standard (padded) base64 encoding of a byte sequence.
pub uninterp spec fn base64_std_of(bytes: Seq<u8>) -> Seq<char>;

/// Relies on base64ct::Base64::encode_string: standard alphabet with
/// padding, so the output takes four characters for every three input
/// bytes, rounded up.
#[verifier::external_body]
pub(crate) fn base64_std_encode(bytes: &[u8]) -> (r: String)
    requires
        bytes@.len() * 4 <= usize::MAX,
    ensures
        r@ == base64_std_of(bytes@),
        r@.len() == 4 * ((bytes@.len() + 2) / 3),
{
    base64ct::Base64::encode_string(bytes)
}

/// The URL-safe (padded) base64 encoding of a byte sequence.
pub uninterp spec fn base64_url_of(bytes: Seq<u8>) -> Seq<char>;

/// Relies on base64::engine::general_purpose::URL_SAFE: URL-safe alphabet
/// with padding, four characters for every three input bytes, rounded up.
#[verifier::external_body]
pub(crate) fn base64_url_encode(bytes: &[u8]) -> (r: String)
    requires
        bytes@.len() * 4 <= usize::MAX,
    ensures
        r@ == base64_url_of(bytes@),
        r@.len() == 4 * ((bytes@.len() + 2) / 3),
{
    base64::engine::general_purpose::URL_SAFE.encode(bytes)
}

/// The URL-safe unpadded base64 encoding of a byte sequence.
pub uninterp spec fn base64_url_nopad_of(bytes: Seq<u8>) -> Seq<char>;

/// Relies on base64::engine::general_purpose::URL_SAFE_NO_PAD: URL-safe
/// alphabet without padding, so the output length is the input length times
/// four thirds, rounded up.
#[verifier::external_body]
pub(crate) fn base64_url_nopad_encode(bytes: &[u8]) -> (r: String)
    requires
        bytes@.len() * 4 <= usize::MAX,
    ensures
        r@ == base64_url_nopad_of(bytes@),
        r@.len() == (bytes@.len() * 4 + 2) / 3,
{
    base64::engine::general_purpose::URL_SAFE_NO_PAD.encode(bytes)
}

/// Equality of two character sequences, decided without an early exit: once
/// the lengths match, every position is visited and the differences are
/// folded together, so the time taken does not tell an observer where the
/// first difference lies.
pub fn constant_time_eq(a: &str, b: &str) -> (r: bool)
    ensures
        r == (a@ == b@),
{
    let a_len = a.unicode_len();
    let b_len = b.unicode_len();
    if a_len != b_len {
        return false;
    }
    let mut diff: u32 = 0;
    let mut i: usize = 0;
    while i < a_len
        invariant
            0 <= i <= a_len,
            a_len == a@.len(),
            a_len == b@.len(),
            diff == 0 <==> (forall|j: int| 0 <= j < i ==> a@[j] == b@[j]),
        decreases a_len - i,
    {
        let ca = a.get_char(i) as u32;
        let cb = b.get_char(i) as u32;
        assert((ca ^ cb == 0) == (ca == cb)) by (bit_vector);
        assert((diff | (ca ^ cb) == 0) == (diff == 0 && ca ^ cb == 0)) by (bit_vector);
        diff = diff | (ca ^ cb);
        i += 1;
    }
    if diff == 0 {
        proof {
            assert(a@ =~= b@);
        }
        true
    } else {
        false
    }
}

/// Relies on rand::thread_rng: fills a buffer of the requested length from a
/// cryptographically secure source.  Nothing is promised of the values.
#[verifier::external_body]
pub(crate) fn random_bytes(n: usize) -> (r: Vec<u8>)
    ensures
        r@.len() == n,
{
    let mut buf = vec![0u8; n];
    rand::thread_rng().fill_bytes(&mut buf);
    buf
}

} // verus!
