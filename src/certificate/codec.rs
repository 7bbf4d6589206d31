//! The DER and PEM codec of certificates, from x509_cert.
//!
//! A certificate is kept as its canonical DER encoding; each function here
//! decodes it and hands out one part as plain values. Decoding and encoding
//! are functions of the bytes alone, so each result has a name here.
use vstd::prelude::*;

use spki::Error as SpkiError;
use x509_cert::der::Error as DerError;
use x509_cert::der::{Decode, DecodePem, Encode, EncodePem};

use super::extension::RawExtension;
use super::{AlgorithmIdentifier, AlgorithmView, Validity};

verus! {

/// The canonical re-encoding of a DER certificate, if it decodes.
pub uninterp spec fn der_canonical(bytes: Seq<u8>) -> Option<Seq<u8>>;

/// The canonical DER encoding of a PEM certificate, if it decodes.
pub uninterp spec fn pem_canonical(pem: Seq<u8>) -> Option<Seq<u8>>;

/// The PEM encoding (LF line endings) of a DER certificate.
pub uninterp spec fn pem_text(der: Seq<u8>) -> Option<Seq<char>>;

/// The DER encoding of a certificate's to-be-signed part.
pub uninterp spec fn tbs_der(der: Seq<u8>) -> Option<Seq<u8>>;

/// The DER encodings of a certificate's subject and issuer names.
pub uninterp spec fn names_der(der: Seq<u8>) -> Option<(Seq<u8>, Seq<u8>)>;

/// The RFC 4514 strings of a certificate's subject and issuer names.
pub uninterp spec fn name_texts_der(der: Seq<u8>) -> Option<(Seq<char>, Seq<char>)>;

/// A certificate's serial number: its bytes and its printable form.
pub uninterp spec fn serial_der(der: Seq<u8>) -> Option<(Seq<u8>, Seq<char>)>;

/// A certificate's validity window in seconds since the Unix epoch.
pub uninterp spec fn validity_der(der: Seq<u8>) -> Option<Validity>;

/// A certificate's subject public key algorithm and key bytes.
pub uninterp spec fn public_key_der(der: Seq<u8>) -> Option<(AlgorithmView, Option<Seq<u8>>)>;

/// A certificate's signature algorithm and signature bytes.
pub uninterp spec fn signature_der(der: Seq<u8>) -> Option<(AlgorithmView, Option<Seq<u8>>)>;

/// A certificate's raw extension list.
pub uninterp spec fn raw_extensions_der(der: Seq<u8>) -> Option<Seq<RawExtension>>;

/// The DER encoding of a certificate's subject public key info.
pub uninterp spec fn spki_der(der: Seq<u8>) -> Option<Seq<u8>>;

/// The Base64 SHA-256 fingerprint of a DER-encoded subject public key info.
pub uninterp spec fn spki_fingerprint(spki: Seq<u8>) -> Option<Seq<char>>;

/// Relies on `x509_cert::Certificate::from_der` and `Encode::to_der`: the
/// canonical re-encoding of a DER certificate.
#[verifier::external_body]
pub(crate) fn canonical_from_der(bytes: &[u8]) -> (r: core::result::Result<Vec<u8>, DerError>)
    ensures
        r is Ok <==> der_canonical(bytes@) is Some,
        r matches Ok(v) ==> der_canonical(bytes@) == Some(v@),
{
    x509_cert::Certificate::from_der(bytes)?.to_der()
}

/// Relies on `x509_cert::Certificate::from_pem` and `Encode::to_der`: the
/// canonical DER encoding of a PEM certificate.
#[verifier::external_body]
pub(crate) fn canonical_from_pem(pem: &[u8]) -> (r: core::result::Result<Vec<u8>, DerError>)
    ensures
        r is Ok <==> pem_canonical(pem@) is Some,
        r matches Ok(v) ==> pem_canonical(pem@) == Some(v@),
{
    x509_cert::Certificate::from_pem(pem)?.to_der()
}

/// Relies on x509_cert's decoder and `EncodePem::to_pem`: the PEM encoding,
/// with LF line endings.
#[verifier::external_body]
pub(crate) fn pem_of(der: &[u8]) -> (r: core::result::Result<String, DerError>)
    ensures
        r is Ok <==> pem_text(der@) is Some,
        r matches Ok(v) ==> pem_text(der@) == Some(v@),
{
    x509_cert::Certificate::from_der(der)?.to_pem(x509_cert::der::pem::LineEnding::LF)
}

/// Relies on x509_cert's decoder and `Encode::to_der`: the to-be-signed part.
#[verifier::external_body]
pub(crate) fn tbs_of(der: &[u8]) -> (r: core::result::Result<Vec<u8>, DerError>)
    ensures
        r is Ok <==> tbs_der(der@) is Some,
        r matches Ok(v) ==> tbs_der(der@) == Some(v@),
{
    x509_cert::Certificate::from_der(der)?.tbs_certificate.to_der()
}

/// Relies on x509_cert's decoder and `Encode::to_der`: the subject and the
/// issuer Name, each DER-encoded.
#[verifier::external_body]
pub(crate) fn names_of(der: &[u8]) -> (r: core::result::Result<(Vec<u8>, Vec<u8>), DerError>)
    ensures
        r is Ok <==> names_der(der@) is Some,
        r matches Ok(v) ==> names_der(der@) == Some((v.0@, v.1@)),
{
    let tbs = x509_cert::Certificate::from_der(der)?.tbs_certificate;
    Ok((tbs.subject.to_der()?, tbs.issuer.to_der()?))
}

/// Relies on x509_cert's decoder and the `Display` of `Name`: the subject and
/// the issuer as RFC 4514 strings.
#[verifier::external_body]
pub(crate) fn name_texts_of(der: &[u8]) -> (r: core::result::Result<(String, String), DerError>)
    ensures
        r is Ok <==> name_texts_der(der@) is Some,
        r matches Ok(v) ==> name_texts_der(der@) == Some((v.0@, v.1@)),
{
    let tbs = x509_cert::Certificate::from_der(der)?.tbs_certificate;
    Ok((tbs.subject.to_string(), tbs.issuer.to_string()))
}

/// Relies on x509_cert's decoder and `SerialNumber`: the serial number's
/// bytes and its printable form.
#[verifier::external_body]
pub(crate) fn serial_of(der: &[u8]) -> (r: core::result::Result<(Vec<u8>, String), DerError>)
    ensures
        r is Ok <==> serial_der(der@) is Some,
        r matches Ok(v) ==> serial_der(der@) == Some((v.0@, v.1@)),
{
    let serial = x509_cert::Certificate::from_der(der)?.tbs_certificate.serial_number;
    Ok((serial.as_bytes().to_vec(), serial.to_string()))
}

/// Relies on x509_cert's decoder and `Time::to_unix_duration`: the validity
/// window in seconds since the Unix epoch.
#[verifier::external_body]
pub(crate) fn validity_of(der: &[u8]) -> (r: core::result::Result<Validity, DerError>)
    ensures
        r is Ok <==> validity_der(der@) is Some,
        r matches Ok(v) ==> validity_der(der@) == Some(v),
{
    let v = x509_cert::Certificate::from_der(der)?.tbs_certificate.validity;
    Ok(Validity {
        not_before: v.not_before.to_unix_duration().as_secs(),
        not_after: v.not_after.to_unix_duration().as_secs(),
    })
}

/// Relies on x509_cert's decoder: the subject public key's algorithm and its
/// key bits as bytes (absent when they are not a whole number of bytes).
#[verifier::external_body]
pub(crate) fn public_key_of(der: &[u8]) -> (r: core::result::Result<(AlgorithmIdentifier, Option<Vec<u8>>), DerError>)
    ensures
        r is Ok <==> public_key_der(der@) is Some,
        r matches Ok(v) ==> public_key_der(der@) == Some((v.0@, crate::bytes::opt_view(v.1))),
{
    let spki = x509_cert::Certificate::from_der(der)?.tbs_certificate.subject_public_key_info;
    let params = spki.algorithm.parameters.map(|p| p.to_der()).transpose()?;
    let alg = AlgorithmIdentifier { oid: spki.algorithm.oid.as_bytes().to_vec(), parameters: params };
    Ok((alg, spki.subject_public_key.as_bytes().map(|b| b.to_vec())))
}

/// Relies on x509_cert's decoder: the signature algorithm and the signature
/// bits as bytes (absent when they are not a whole number of bytes).
#[verifier::external_body]
pub(crate) fn signature_of(der: &[u8]) -> (r: core::result::Result<(AlgorithmIdentifier, Option<Vec<u8>>), DerError>)
    ensures
        r is Ok <==> signature_der(der@) is Some,
        r matches Ok(v) ==> signature_der(der@) == Some((v.0@, crate::bytes::opt_view(v.1))),
{
    let cert = x509_cert::Certificate::from_der(der)?;
    let params = cert.signature_algorithm.parameters.map(|p| p.to_der()).transpose()?;
    let alg = AlgorithmIdentifier { oid: cert.signature_algorithm.oid.as_bytes().to_vec(), parameters: params };
    Ok((alg, cert.signature.as_bytes().map(|b| b.to_vec())))
}

/// Relies on x509_cert's decoder: the raw extension list, in order.
#[verifier::external_body]
pub(crate) fn raw_extensions_of(der: &[u8]) -> (r: core::result::Result<Vec<RawExtension>, DerError>)
    ensures
        r is Ok <==> raw_extensions_der(der@) is Some,
        r matches Ok(v) ==> raw_extensions_der(der@) == Some(v@),
{
    let exts = x509_cert::Certificate::from_der(der)?.tbs_certificate.extensions.unwrap_or_default();
    Ok(exts.iter().map(|e| RawExtension {
        oid: e.extn_id.as_bytes().to_vec(),
        critical: e.critical,
        value: e.extn_value.as_bytes().to_vec(),
    }).collect())
}

/// Relies on x509_cert's decoder and `Encode::to_der`: the subject public
/// key info, DER-encoded.
#[verifier::external_body]
pub(crate) fn spki_of(der: &[u8]) -> (r: core::result::Result<Vec<u8>, DerError>)
    ensures
        r is Ok <==> spki_der(der@) is Some,
        r matches Ok(v) ==> spki_der(der@) == Some(v@),
{
    x509_cert::Certificate::from_der(der)?.tbs_certificate.subject_public_key_info.to_der()
}

/// Relies on `SubjectPublicKeyInfoOwned::from_der` and
/// `SubjectPublicKeyInfo::fingerprint_base64`: the Base64 SHA-256 fingerprint
/// of a DER-encoded subject public key info, a function of those bytes alone.
#[verifier::external_body]
pub(crate) fn fingerprint_of_spki(spki: &[u8]) -> (r: core::result::Result<String, SpkiError>)
    ensures
        r is Ok <==> spki_fingerprint(spki@) is Some,
        r matches Ok(v) ==> spki_fingerprint(spki@) == Some(v@),
{
    x509_cert::spki::SubjectPublicKeyInfoOwned::from_der(spki)?.fingerprint_base64()
}

/// Relies on `spki::Error::KeyMalformed`: the error for public key bits that
/// are not a whole number of bytes.
#[verifier::external_body]
pub(crate) fn key_malformed() -> (r: SpkiError)
    ensures
        r == SpkiError::KeyMalformed,
{
    SpkiError::KeyMalformed
}

} // verus!
