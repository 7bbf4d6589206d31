//! The Ed25519 scheme (RFC 8410), from ed25519_dalek.
use vstd::prelude::*;

verus! {

/// Whether ed25519_dalek accepts `sig` as a signature of `msg` under `key`.
pub uninterp spec fn ed25519_accepts(key: Seq<u8>, msg: Seq<u8>, sig: Seq<u8>) -> bool;

/// Whether ed25519_dalek accepts `key` as an encoded verifying key.
pub uninterp spec fn ed25519_key_valid(key: Seq<u8>) -> bool;

/// Relies on `ed25519_dalek::VerifyingKey::from_bytes` on the 32 key bytes:
/// whether they decode to a verifying key; a key of another length does not.
#[verifier::external_body]
pub(crate) fn ed25519_key_parses(key: &[u8]) -> (r: bool)
    ensures
        r == ed25519_key_valid(key@),
        key@.len() != 32 ==> !r,
{
    match <[u8; 32]>::try_from(key) {
        Ok(b) => ed25519_dalek::VerifyingKey::from_bytes(&b).is_ok(),
        Err(_) => false,
    }
}

/// Relies on `ed25519::Signature::from_slice`: it refuses exactly the byte
/// strings whose length is not 64.
#[verifier::external_body]
pub(crate) fn ed25519_signature_parses(sig: &[u8]) -> (r: bool)
    ensures
        r == (sig@.len() == 64),
{
    ed25519_dalek::Signature::from_slice(sig).is_ok()
}

/// Relies on ed25519_dalek: `VerifyingKey::from_bytes` on the 32 key bytes,
/// `Signature::from_slice` on the 64 signature bytes, then `Verifier::verify`.
/// The verdict depends on the three byte strings alone; a key or a signature
/// of another length is refused.
#[verifier::external_body]
pub(crate) fn ed25519_verify(key: &[u8], msg: &[u8], sig: &[u8]) -> (r: bool)
    ensures
        r == ed25519_accepts(key@, msg@, sig@),
        key@.len() != 32 ==> !r,
        sig@.len() != 64 ==> !r,
{
    let key_bytes: [u8; 32] = match key.try_into() {
        Ok(b) => b,
        Err(_) => return false,
    };
    let signature = match ed25519_dalek::Signature::from_slice(sig) {
        Ok(s) => s,
        Err(_) => return false,
    };
    match ed25519_dalek::VerifyingKey::from_bytes(&key_bytes) {
        Ok(k) => ed25519_dalek::Verifier::verify(&k, msg, &signature).is_ok(),
        Err(_) => false,
    }
}

} // verus!
