//! ECDSA over NIST P-256 with SHA-256 and over NIST P-384 with SHA-384
//! (RFC 5758), from p256 and p384.
use vstd::prelude::*;

use p256::ecdsa::signature::Verifier as P256Verifier;
use p384::ecdsa::signature::Verifier as P384Verifier;

verus! {

/// Whether p256 accepts the DER signature `sig` of `msg` under the
/// SEC1-encoded `key`.
pub uninterp spec fn p256_accepts(key: Seq<u8>, msg: Seq<u8>, sig: Seq<u8>) -> bool;

/// Whether p384 accepts the DER signature `sig` of `msg` under the
/// SEC1-encoded `key`.
pub uninterp spec fn p384_accepts(key: Seq<u8>, msg: Seq<u8>, sig: Seq<u8>) -> bool;

/// Whether p256 accepts `key` as a SEC1-encoded verifying key.
pub uninterp spec fn p256_key_valid(key: Seq<u8>) -> bool;

/// Whether p256 accepts `sig` as an ASN.1 DER signature.
pub uninterp spec fn p256_signature_valid(sig: Seq<u8>) -> bool;

/// Relies on `p256::ecdsa::VerifyingKey::from_sec1_bytes`: whether the bytes
/// decode to a verifying key.
#[verifier::external_body]
pub(crate) fn p256_key_parses(key: &[u8]) -> (r: bool)
    ensures
        r == p256_key_valid(key@),
{
    p256::ecdsa::VerifyingKey::from_sec1_bytes(key).is_ok()
}

/// Relies on `p256::ecdsa::Signature::from_der`: whether the bytes decode to
/// a signature.
#[verifier::external_body]
pub(crate) fn p256_signature_parses(sig: &[u8]) -> (r: bool)
    ensures
        r == p256_signature_valid(sig@),
{
    p256::ecdsa::Signature::from_der(sig).is_ok()
}

/// Relies on p256: `VerifyingKey::from_sec1_bytes`, `Signature::from_der`,
/// then `Verifier::verify` (SHA-256 of the message). The verdict depends on
/// the three byte strings alone.
#[verifier::external_body]
pub(crate) fn p256_verify(key: &[u8], msg: &[u8], sig: &[u8]) -> (r: bool)
    ensures
        r == p256_accepts(key@, msg@, sig@),
{
    let key = match p256::ecdsa::VerifyingKey::from_sec1_bytes(key) {
        Ok(k) => k,
        Err(_) => return false,
    };
    match p256::ecdsa::Signature::from_der(sig) {
        Ok(s) => P256Verifier::verify(&key, msg, &s).is_ok(),
        Err(_) => false,
    }
}

/// Whether p384 accepts `key` as a SEC1-encoded verifying key.
pub uninterp spec fn p384_key_valid(key: Seq<u8>) -> bool;

/// Whether p384 accepts `sig` as an ASN.1 DER signature.
pub uninterp spec fn p384_signature_valid(sig: Seq<u8>) -> bool;

/// Relies on `p384::ecdsa::VerifyingKey::from_sec1_bytes`: whether the bytes
/// decode to a verifying key.
#[verifier::external_body]
pub(crate) fn p384_key_parses(key: &[u8]) -> (r: bool)
    ensures
        r == p384_key_valid(key@),
{
    p384::ecdsa::VerifyingKey::from_sec1_bytes(key).is_ok()
}

/// Relies on `p384::ecdsa::Signature::from_der`: whether the bytes decode to
/// a signature.
#[verifier::external_body]
pub(crate) fn p384_signature_parses(sig: &[u8]) -> (r: bool)
    ensures
        r == p384_signature_valid(sig@),
{
    p384::ecdsa::Signature::from_der(sig).is_ok()
}

/// Relies on p384: `VerifyingKey::from_sec1_bytes`, `Signature::from_der`,
/// then `Verifier::verify` (SHA-384 of the message). The verdict depends on
/// the three byte strings alone.
#[verifier::external_body]
pub(crate) fn p384_verify(key: &[u8], msg: &[u8], sig: &[u8]) -> (r: bool)
    ensures
        r == p384_accepts(key@, msg@, sig@),
{
    let key = match p384::ecdsa::VerifyingKey::from_sec1_bytes(key) {
        Ok(k) => k,
        Err(_) => return false,
    };
    match p384::ecdsa::Signature::from_der(sig) {
        Ok(s) => P384Verifier::verify(&key, msg, &s).is_ok(),
        Err(_) => false,
    }
}

} // verus!
