//! Which issuer key verifies which certificate: algorithm binding and
//! dispatch to the supported schemes.
use vstd::prelude::*;

use crate::signature::{
    self, key_is_valid, key_valid, oid_scheme, scheme_of_oid, scheme_outcome, SignatureVerifier,
};

use super::{AlgorithmIdentifier, Certificate, CertificateView, Error};

verus! {

/// Equality of two algorithm identifiers: OID and parameters.
pub fn algorithm_eq(a: &AlgorithmIdentifier, b: &AlgorithmIdentifier) -> (r: bool)
    ensures
        r == (a@ == b@),
{
    crate::bytes::bytes_eq(a.oid.as_slice(), b.oid.as_slice()) && crate::bytes::opt_bytes_eq(
        &a.parameters,
        &b.parameters,
    )
}

/// The outcome of checking `subject`'s signature with `issuer`'s key: the
/// algorithms must agree, before any cryptography; the algorithm must be
/// supported; the key must be whole bytes and decode; the signature must be
/// whole bytes and decode; and the scheme's verifier must accept the
/// signature over the to-be-signed bytes.
pub open spec fn signature_outcome(issuer: CertificateView, subject: CertificateView) -> crate::Result<()> {
    if issuer.key_algorithm != subject.signature_algorithm {
        Err(crate::error::Error::Certificate(Error::AlgorithmMismatch))
    } else {
        match oid_scheme(issuer.key_algorithm.oid) {
            None => Err(crate::error::Error::Certificate(Error::AlgorithmUnsupported)),
            Some(s) => match issuer.public_key {
                None => Err(crate::error::Error::Signature(signature::Error::KeyMalformed)),
                Some(k) => if !key_valid(s, k) {
                    Err(crate::error::Error::Signature(signature::Error::KeyMalformed))
                } else {
                    match subject.signature {
                        None => Err(crate::error::Error::Signature(signature::Error::SignatureMalformed)),
                        Some(sig) => scheme_outcome(s, k, subject.tbs, sig),
                    }
                },
            },
        }
    }
}

impl Certificate {
    /// Verifies that `cert` is signed by this certificate's key.
    pub fn verify_signature(&self, cert: &Certificate) -> (r: crate::Result<()>)
        ensures
            r == signature_outcome(self@, cert@),
            (self@.key_algorithm == cert@.signature_algorithm && oid_scheme(self@.key_algorithm.oid)
                == Some(signature::Scheme::Ed25519) && (self@.public_key matches Some(k)
                && k.len() != 32)) ==> r == Err::<(), _>(
                crate::error::Error::Signature(signature::Error::KeyMalformed),
            ),
    {
        let algo = self.key_algorithm();
        if !algorithm_eq(algo, cert.signature_algorithm()) {
            return Err(crate::error::Error::Certificate(Error::AlgorithmMismatch));
        }
        let scheme = match scheme_of_oid(algo.oid.as_slice()) {
            Some(s) => s,
            None => return Err(crate::error::Error::Certificate(Error::AlgorithmUnsupported)),
        };
        let key = match self.public_key() {
            Some(k) => crate::bytes::copy_bytes(k),
            None => return Err(crate::error::Error::Signature(signature::Error::KeyMalformed)),
        };
        if !key_is_valid(scheme, key.as_slice()) {
            return Err(crate::error::Error::Signature(signature::Error::KeyMalformed));
        }
        let verifier = SignatureVerifier::new(scheme, key);
        verifier.verify_certificate(cert)
    }
}

} // verus!
