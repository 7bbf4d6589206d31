//! The library's error type.
use vstd::prelude::*;

use crate::certificate;
use crate::signature;

use const_oid::ObjectIdentifier;
use spki::Error as SpkiError;
use x509_cert::der::Error as DerError;

verus! {

#[verifier::external_type_specification]
#[verifier::external_body]
pub struct ExDerError(DerError);

#[verifier::external_type_specification]
#[verifier::external_body]
pub struct ExObjectIdentifier(ObjectIdentifier);

#[verifier::external_type_specification]
pub struct ExSpkiError(SpkiError);

/// Every failure the library reports.
#[derive(Debug)]
pub enum Error {
    /// A rule of certificate or path validation was broken.
    Certificate(certificate::Error),
    /// A signature could not be checked or did not verify.
    Signature(signature::Error),
    /// The subject public key info could not be processed.
    Spki(SpkiError),
    /// The ASN.1 DER structure is malformed.
    Asn1(DerError),
}

impl From<certificate::Error> for Error {
    fn from(err: certificate::Error) -> (r: Self)
        ensures
            r == Error::Certificate(err),
    {
        Error::Certificate(err)
    }
}

impl vstd::std_specs::convert::FromSpecImpl<certificate::Error> for Error {
    open spec fn obeys_from_spec() -> bool {
        true
    }

    open spec fn from_spec(err: certificate::Error) -> Error {
        Error::Certificate(err)
    }
}

impl From<signature::Error> for Error {
    fn from(err: signature::Error) -> (r: Self)
        ensures
            r == Error::Signature(err),
    {
        Error::Signature(err)
    }
}

impl vstd::std_specs::convert::FromSpecImpl<signature::Error> for Error {
    open spec fn obeys_from_spec() -> bool {
        true
    }

    open spec fn from_spec(err: signature::Error) -> Error {
        Error::Signature(err)
    }
}

} // verus!
