//! Signature verification, dispatched on the signature scheme.
use vstd::prelude::*;

pub mod ecdsa;
pub mod ed25519;

use crate::certificate::Certificate;

use self::ecdsa::{
    p256_accepts, p256_key_valid, p256_signature_valid, p384_accepts, p384_key_valid,
    p384_signature_valid,
};
use self::ed25519::{ed25519_accepts, ed25519_key_valid};

verus! {

/// Failures of signature verification.
#[derive(Debug, PartialEq, Eq, Structural)]
pub enum Error {
    /// The signature is not a whole number of bytes, or does not decode
    /// under its scheme.
    SignatureMalformed,
    /// The public key is not a whole number of bytes, or does not decode
    /// under its scheme.
    KeyMalformed,
    /// The signature does not verify; the cause is deliberately not told.
    VerificationFailed,
}

/// The supported signature schemes.
#[derive(Debug, Clone, Copy, PartialEq, Eq, Structural)]
pub enum Scheme {
    /// Ed25519 (RFC 8410).
    Ed25519,
    /// ECDSA over NIST P-256 with SHA-256.
    EcdsaP256Sha256,
    /// ECDSA over NIST P-384 with SHA-384.
    EcdsaP384Sha384,
}

/// Whether the scheme's verifier accepts `sig` as a signature of `msg`
/// under `key`.
pub open spec fn scheme_accepts(s: Scheme, key: Seq<u8>, msg: Seq<u8>, sig: Seq<u8>) -> bool {
    match s {
        Scheme::Ed25519 => ed25519_accepts(key, msg, sig),
        Scheme::EcdsaP256Sha256 => p256_accepts(key, msg, sig),
        Scheme::EcdsaP384Sha384 => p384_accepts(key, msg, sig),
    }
}

/// Whether `key` decodes as a verifying key of the scheme.
pub open spec fn key_valid(s: Scheme, key: Seq<u8>) -> bool {
    match s {
        Scheme::Ed25519 => ed25519_key_valid(key),
        Scheme::EcdsaP256Sha256 => p256_key_valid(key),
        Scheme::EcdsaP384Sha384 => p384_key_valid(key),
    }
}

/// Whether `sig` decodes as a signature of the scheme.
pub open spec fn signature_valid(s: Scheme, sig: Seq<u8>) -> bool {
    match s {
        Scheme::Ed25519 => sig.len() == 64,
        Scheme::EcdsaP256Sha256 => p256_signature_valid(sig),
        Scheme::EcdsaP384Sha384 => p384_signature_valid(sig),
    }
}

/// The outcome of verifying `sig` over `msg` under `key`: the key must
/// decode, then the signature, then the scheme must accept it.
pub open spec fn scheme_outcome(s: Scheme, key: Seq<u8>, msg: Seq<u8>, sig: Seq<u8>) -> crate::Result<()> {
    if !key_valid(s, key) {
        Err(crate::error::Error::Signature(Error::KeyMalformed))
    } else if !signature_valid(s, sig) {
        Err(crate::error::Error::Signature(Error::SignatureMalformed))
    } else {
        verdict(scheme_accepts(s, key, msg, sig))
    }
}

/// Whether `key` decodes as a verifying key of the scheme.
pub fn key_is_valid(s: Scheme, key: &[u8]) -> (r: bool)
    ensures
        r == key_valid(s, key@),
        s == Scheme::Ed25519 && key@.len() != 32 ==> !r,
{
    match s {
        Scheme::Ed25519 => ed25519::ed25519_key_parses(key),
        Scheme::EcdsaP256Sha256 => ecdsa::p256_key_parses(key),
        Scheme::EcdsaP384Sha384 => ecdsa::p384_key_parses(key),
    }
}

/// Whether `sig` decodes as a signature of the scheme.
pub fn signature_is_valid(s: Scheme, sig: &[u8]) -> (r: bool)
    ensures
        r == signature_valid(s, sig@),
{
    match s {
        Scheme::Ed25519 => ed25519::ed25519_signature_parses(sig),
        Scheme::EcdsaP256Sha256 => ecdsa::p256_signature_parses(sig),
        Scheme::EcdsaP384Sha384 => ecdsa::p384_signature_parses(sig),
    }
}

/// The scheme that a signature algorithm's OID (content octets) names:
/// id-Ed25519 1.3.101.112, ecdsa-with-SHA256 1.2.840.10045.4.3.2,
/// ecdsa-with-SHA384 1.2.840.10045.4.3.3.
pub open spec fn oid_scheme(oid: Seq<u8>) -> Option<Scheme> {
    if oid == seq![0x2bu8, 0x65u8, 0x70u8] {
        Some(Scheme::Ed25519)
    } else if oid == seq![0x2au8, 0x86u8, 0x48u8, 0xceu8, 0x3du8, 0x04u8, 0x03u8, 0x02u8] {
        Some(Scheme::EcdsaP256Sha256)
    } else if oid == seq![0x2au8, 0x86u8, 0x48u8, 0xceu8, 0x3du8, 0x04u8, 0x03u8, 0x03u8] {
        Some(Scheme::EcdsaP384Sha384)
    } else {
        None
    }
}

/// Looks up the scheme of a signature algorithm's OID.
pub fn scheme_of_oid(oid: &[u8]) -> (r: Option<Scheme>)
    ensures
        r == oid_scheme(oid@),
{
    if oid.len() == 3 && oid[0] == 0x2b && oid[1] == 0x65 && oid[2] == 0x70 {
        assert(oid@ =~= seq![0x2bu8, 0x65u8, 0x70u8]);
        return Some(Scheme::Ed25519);
    }
    if oid.len() == 8 && oid[0] == 0x2a && oid[1] == 0x86 && oid[2] == 0x48 && oid[3] == 0xce
        && oid[4] == 0x3d && oid[5] == 0x04 && oid[6] == 0x03 {
        if oid[7] == 0x02 {
            assert(oid@ =~= seq![0x2au8, 0x86u8, 0x48u8, 0xceu8, 0x3du8, 0x04u8, 0x03u8, 0x02u8]);
            return Some(Scheme::EcdsaP256Sha256);
        }
        if oid[7] == 0x03 {
            assert(oid@ =~= seq![0x2au8, 0x86u8, 0x48u8, 0xceu8, 0x3du8, 0x04u8, 0x03u8, 0x03u8]);
            return Some(Scheme::EcdsaP384Sha384);
        }
    }
    None
}

/// Success when the verifier accepts, else the undifferentiated failure.
pub open spec fn verdict(accepted: bool) -> crate::Result<()> {
    if accepted {
        Ok(())
    } else {
        Err(crate::error::Error::Signature(Error::VerificationFailed))
    }
}

/// A verifying key bound to its signature scheme.
pub struct SignatureVerifier {
    scheme: Scheme,
    key: Vec<u8>,
}

impl View for SignatureVerifier {
    type V = (Scheme, Seq<u8>);

    closed spec fn view(&self) -> (Scheme, Seq<u8>) {
        (self.scheme, self.key@)
    }
}

impl SignatureVerifier {
    /// A verifier for `scheme` with the encoded public key `key`.
    pub fn new(scheme: Scheme, key: Vec<u8>) -> (r: Self)
        ensures
            r@ == (scheme, key@),
    {
        SignatureVerifier { scheme, key }
    }

    /// Verifies `signature` over `data`: `KeyMalformed` or
    /// `SignatureMalformed` when either does not decode, and otherwise the
    /// one undifferentiated `VerificationFailed` when it does not verify.
    #[inline]
    pub fn verify(&self, data: &[u8], signature: &[u8]) -> (r: crate::Result<()>)
        ensures
            r == scheme_outcome(self@.0, self@.1, data@, signature@),
    {
        if !key_is_valid(self.scheme, self.key.as_slice()) {
            return Err(crate::error::Error::Signature(Error::KeyMalformed));
        }
        if !signature_is_valid(self.scheme, signature) {
            return Err(crate::error::Error::Signature(Error::SignatureMalformed));
        }
        let ok = match self.scheme {
            Scheme::Ed25519 => ed25519::ed25519_verify(self.key.as_slice(), data, signature),
            Scheme::EcdsaP256Sha256 => ecdsa::p256_verify(self.key.as_slice(), data, signature),
            Scheme::EcdsaP384Sha384 => ecdsa::p384_verify(self.key.as_slice(), data, signature),
        };
        if ok {
            Ok(())
        } else {
            Err(crate::error::Error::Signature(Error::VerificationFailed))
        }
    }

    /// Verifies a certificate's signature over its to-be-signed bytes.
    pub fn verify_certificate(&self, cert: &Certificate) -> (r: crate::Result<()>)
        ensures
            cert@.signature is None ==> r == Err::<(), _>(
                crate::error::Error::Signature(Error::SignatureMalformed),
            ),
            cert@.signature matches Some(s) ==> r == scheme_outcome(self@.0, self@.1, cert@.tbs, s),
    {
        let signed_data = cert.tbs_bytes();
        match cert.signature_bytes() {
            Some(signature) => self.verify(signed_data, signature),
            None => Err(crate::error::Error::Signature(Error::SignatureMalformed)),
        }
    }
}

} // verus!
