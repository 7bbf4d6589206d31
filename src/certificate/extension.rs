//! Typed X.509 extensions, and their OID-keyed decoding.
use vstd::prelude::*;

use x509_cert::der::Decode;

use super::{Certificate, Error};

verus! {

#[verifier::external_type_specification]
#[verifier::external_body]
pub struct ExSubjectAltName(x509_cert::ext::pkix::SubjectAltName);

#[verifier::external_type_specification]
#[verifier::external_body]
pub struct ExCertificatePolicies(x509_cert::ext::pkix::CertificatePolicies);

/// The ordered extensions of a certificate.
pub type Extensions = Vec<Extension>;

/// BasicConstraints: whether the subject is a CA, and how many CA
/// certificates may follow it on a path.
#[derive(Debug, Clone, Copy, PartialEq, Eq, Structural)]
pub struct BasicConstraints {
    pub ca: bool,
    pub path_len_constraint: Option<u8>,
}

/// KeyUsage, as its bit flags (bit `n` of the named bit string is `1 << n`).
#[derive(Debug, Clone, Copy, PartialEq, Eq, Structural)]
pub struct KeyUsage(pub u16);

/// The keyCertSign flag of KeyUsage.
pub const KEY_CERT_SIGN: u16 = 0x20;

/// ExtendedKeyUsage: the content octets of each purpose's object identifier.
#[derive(Debug, Clone)]
pub struct ExtendedKeyUsage(pub Vec<Vec<u8>>);

/// AuthorityKeyIdentifier: the issuer's key identifier and the issuer
/// certificate's serial number, each if present.
#[derive(Debug, Clone)]
pub struct AuthorityKeyIdentifier {
    pub key_identifier: Option<Vec<u8>>,
    pub authority_cert_serial_number: Option<Vec<u8>>,
}

/// SubjectKeyIdentifier: the identifier of the subject's key.
#[derive(Debug, Clone)]
pub struct SubjectKeyIdentifier(pub Vec<u8>);

/// A recognized extension with its decoded payload.
#[derive(Debug)]
pub enum Extension {
    BasicConstraints(BasicConstraints),
    KeyUsage(KeyUsage),
    ExtendedKeyUsage(ExtendedKeyUsage),
    SubjectAlternativeName(x509_cert::ext::pkix::SubjectAltName),
    AuthorityKeyIdentifier(AuthorityKeyIdentifier),
    SubjectKeyIdentifier(SubjectKeyIdentifier),
    CertificatePolicies(x509_cert::ext::pkix::CertificatePolicies),
}

/// The seven recognized kinds of extension.
#[derive(Debug, Clone, Copy, PartialEq, Eq, Structural)]
pub enum ExtensionKind {
    BasicConstraints,
    KeyUsage,
    ExtendedKeyUsage,
    SubjectAlternativeName,
    AuthorityKeyIdentifier,
    SubjectKeyIdentifier,
    CertificatePolicies,
}

/// An extension as it stands in a certificate: its object identifier
/// (content octets), its critical flag and its undecoded payload.
#[derive(Debug, Clone)]
pub struct RawExtension {
    pub oid: Vec<u8>,
    pub critical: bool,
    pub value: Vec<u8>,
}

impl Extension {
    pub open spec fn kind_spec(self) -> ExtensionKind {
        match self {
            Extension::BasicConstraints(_) => ExtensionKind::BasicConstraints,
            Extension::KeyUsage(_) => ExtensionKind::KeyUsage,
            Extension::ExtendedKeyUsage(_) => ExtensionKind::ExtendedKeyUsage,
            Extension::SubjectAlternativeName(_) => ExtensionKind::SubjectAlternativeName,
            Extension::AuthorityKeyIdentifier(_) => ExtensionKind::AuthorityKeyIdentifier,
            Extension::SubjectKeyIdentifier(_) => ExtensionKind::SubjectKeyIdentifier,
            Extension::CertificatePolicies(_) => ExtensionKind::CertificatePolicies,
        }
    }

    /// The kind of this extension.
    pub fn kind(&self) -> (r: ExtensionKind)
        ensures
            r == self.kind_spec(),
    {
        match self {
            Extension::BasicConstraints(_) => ExtensionKind::BasicConstraints,
            Extension::KeyUsage(_) => ExtensionKind::KeyUsage,
            Extension::ExtendedKeyUsage(_) => ExtensionKind::ExtendedKeyUsage,
            Extension::SubjectAlternativeName(_) => ExtensionKind::SubjectAlternativeName,
            Extension::AuthorityKeyIdentifier(_) => ExtensionKind::AuthorityKeyIdentifier,
            Extension::SubjectKeyIdentifier(_) => ExtensionKind::SubjectKeyIdentifier,
            Extension::CertificatePolicies(_) => ExtensionKind::CertificatePolicies,
        }
    }
}

/// The kind that an object identifier (content octets) names, if it is one of
/// the recognized id-ce arcs 2.5.29.{14,15,17,19,32,35,37}.
pub open spec fn oid_kind(oid: Seq<u8>) -> Option<ExtensionKind> {
    if oid.len() == 3 && oid[0] == 0x55u8 && oid[1] == 0x1du8 {
        if oid[2] == 0x13u8 {
            Some(ExtensionKind::BasicConstraints)
        } else if oid[2] == 0x0fu8 {
            Some(ExtensionKind::KeyUsage)
        } else if oid[2] == 0x25u8 {
            Some(ExtensionKind::ExtendedKeyUsage)
        } else if oid[2] == 0x11u8 {
            Some(ExtensionKind::SubjectAlternativeName)
        } else if oid[2] == 0x23u8 {
            Some(ExtensionKind::AuthorityKeyIdentifier)
        } else if oid[2] == 0x0eu8 {
            Some(ExtensionKind::SubjectKeyIdentifier)
        } else if oid[2] == 0x20u8 {
            Some(ExtensionKind::CertificatePolicies)
        } else {
            None
        }
    } else {
        None
    }
}

/// Looks up the recognized kind of an extension's object identifier.
pub fn kind_of_oid(oid: &[u8]) -> (r: Option<ExtensionKind>)
    ensures
        r == oid_kind(oid@),
{
    if oid.len() != 3 || oid[0] != 0x55 || oid[1] != 0x1d {
        return None;
    }
    match oid[2] {
        0x13 => Some(ExtensionKind::BasicConstraints),
        0x0f => Some(ExtensionKind::KeyUsage),
        0x25 => Some(ExtensionKind::ExtendedKeyUsage),
        0x11 => Some(ExtensionKind::SubjectAlternativeName),
        0x23 => Some(ExtensionKind::AuthorityKeyIdentifier),
        0x0e => Some(ExtensionKind::SubjectKeyIdentifier),
        0x20 => Some(ExtensionKind::CertificatePolicies),
        _ => None,
    }
}


/// What x509_cert's DER decoder makes of a BasicConstraints payload.
pub uninterp spec fn basic_constraints_der(b: Seq<u8>) -> Option<BasicConstraints>;

/// What x509_cert's DER decoder makes of a KeyUsage payload.
pub uninterp spec fn key_usage_der(b: Seq<u8>) -> Option<KeyUsage>;

/// What x509_cert's DER decoder makes of an ExtendedKeyUsage payload.
pub uninterp spec fn extended_key_usage_der(b: Seq<u8>) -> Option<ExtendedKeyUsage>;

/// What x509_cert's DER decoder makes of a SubjectAltName payload.
pub uninterp spec fn subject_alt_name_der(b: Seq<u8>) -> Option<x509_cert::ext::pkix::SubjectAltName>;

/// What x509_cert's DER decoder makes of an AuthorityKeyIdentifier payload.
pub uninterp spec fn authority_key_identifier_der(b: Seq<u8>) -> Option<AuthorityKeyIdentifier>;

/// What x509_cert's DER decoder makes of a SubjectKeyIdentifier payload.
pub uninterp spec fn subject_key_identifier_der(b: Seq<u8>) -> Option<SubjectKeyIdentifier>;

/// What x509_cert's DER decoder makes of a CertificatePolicies payload.
pub uninterp spec fn certificate_policies_der(b: Seq<u8>) -> Option<x509_cert::ext::pkix::CertificatePolicies>;

/// Relies on `x509_cert::ext::pkix::BasicConstraints::from_der`: its outcome
/// depends on the payload bytes alone.
#[verifier::external_body]
fn decode_basic_constraints(b: &[u8]) -> (r: core::result::Result<BasicConstraints, x509_cert::der::Error>)
    ensures
        r is Ok <==> basic_constraints_der(b@) is Some,
        r matches Ok(v) ==> basic_constraints_der(b@) == Some(v),
{
    let v = x509_cert::ext::pkix::BasicConstraints::from_der(b)?;
    Ok(BasicConstraints { ca: v.ca, path_len_constraint: v.path_len_constraint })
}

/// Relies on `x509_cert::ext::pkix::KeyUsage::from_der`: its outcome depends
/// on the payload bytes alone.
#[verifier::external_body]
fn decode_key_usage(b: &[u8]) -> (r: core::result::Result<KeyUsage, x509_cert::der::Error>)
    ensures
        r is Ok <==> key_usage_der(b@) is Some,
        r matches Ok(v) ==> key_usage_der(b@) == Some(v),
{
    let v = x509_cert::ext::pkix::KeyUsage::from_der(b)?;
    Ok(KeyUsage(v.0.bits()))
}

/// Relies on `x509_cert::ext::pkix::ExtendedKeyUsage::from_der`: its outcome
/// depends on the payload bytes alone.
#[verifier::external_body]
fn decode_extended_key_usage(b: &[u8]) -> (r: core::result::Result<ExtendedKeyUsage, x509_cert::der::Error>)
    ensures
        r is Ok <==> extended_key_usage_der(b@) is Some,
        r matches Ok(v) ==> extended_key_usage_der(b@) == Some(v),
{
    let v = x509_cert::ext::pkix::ExtendedKeyUsage::from_der(b)?;
    Ok(ExtendedKeyUsage(v.0.iter().map(|o| o.as_bytes().to_vec()).collect()))
}

/// Relies on `x509_cert::ext::pkix::SubjectAltName::from_der`: its outcome
/// depends on the payload bytes alone.
#[verifier::external_body]
fn decode_subject_alt_name(b: &[u8]) -> (r: core::result::Result<x509_cert::ext::pkix::SubjectAltName, x509_cert::der::Error>)
    ensures
        r is Ok <==> subject_alt_name_der(b@) is Some,
        r matches Ok(v) ==> subject_alt_name_der(b@) == Some(v),
{
    x509_cert::ext::pkix::SubjectAltName::from_der(b)
}

/// Relies on `x509_cert::ext::pkix::AuthorityKeyIdentifier::from_der`: its
/// outcome depends on the payload bytes alone.
#[verifier::external_body]
fn decode_authority_key_identifier(b: &[u8]) -> (r: core::result::Result<AuthorityKeyIdentifier, x509_cert::der::Error>)
    ensures
        r is Ok <==> authority_key_identifier_der(b@) is Some,
        r matches Ok(v) ==> authority_key_identifier_der(b@) == Some(v),
{
    let v = x509_cert::ext::pkix::AuthorityKeyIdentifier::from_der(b)?;
    Ok(AuthorityKeyIdentifier {
        key_identifier: v.key_identifier.map(|k| k.as_bytes().to_vec()),
        authority_cert_serial_number: v.authority_cert_serial_number.map(|s| s.as_bytes().to_vec()),
    })
}

/// Relies on `x509_cert::ext::pkix::SubjectKeyIdentifier::from_der`: its
/// outcome depends on the payload bytes alone.
#[verifier::external_body]
fn decode_subject_key_identifier(b: &[u8]) -> (r: core::result::Result<SubjectKeyIdentifier, x509_cert::der::Error>)
    ensures
        r is Ok <==> subject_key_identifier_der(b@) is Some,
        r matches Ok(v) ==> subject_key_identifier_der(b@) == Some(v),
{
    let v = x509_cert::ext::pkix::SubjectKeyIdentifier::from_der(b)?;
    Ok(SubjectKeyIdentifier(v.0.as_bytes().to_vec()))
}

/// Relies on `x509_cert::ext::pkix::CertificatePolicies::from_der`: its
/// outcome depends on the payload bytes alone.
#[verifier::external_body]
fn decode_certificate_policies(b: &[u8]) -> (r: core::result::Result<x509_cert::ext::pkix::CertificatePolicies, x509_cert::der::Error>)
    ensures
        r is Ok <==> certificate_policies_der(b@) is Some,
        r matches Ok(v) ==> certificate_policies_der(b@) == Some(v),
{
    x509_cert::ext::pkix::CertificatePolicies::from_der(b)
}

/// The decoded payload of an extension of kind `k`, if the payload decodes.
pub open spec fn payload_spec(k: ExtensionKind, b: Seq<u8>) -> Option<Extension> {
    match k {
        ExtensionKind::BasicConstraints => match basic_constraints_der(b) {
            Some(v) => Some(Extension::BasicConstraints(v)),
            None => None,
        },
        ExtensionKind::KeyUsage => match key_usage_der(b) {
            Some(v) => Some(Extension::KeyUsage(v)),
            None => None,
        },
        ExtensionKind::ExtendedKeyUsage => match extended_key_usage_der(b) {
            Some(v) => Some(Extension::ExtendedKeyUsage(v)),
            None => None,
        },
        ExtensionKind::SubjectAlternativeName => match subject_alt_name_der(b) {
            Some(v) => Some(Extension::SubjectAlternativeName(v)),
            None => None,
        },
        ExtensionKind::AuthorityKeyIdentifier => match authority_key_identifier_der(b) {
            Some(v) => Some(Extension::AuthorityKeyIdentifier(v)),
            None => None,
        },
        ExtensionKind::SubjectKeyIdentifier => match subject_key_identifier_der(b) {
            Some(v) => Some(Extension::SubjectKeyIdentifier(v)),
            None => None,
        },
        ExtensionKind::CertificatePolicies => match certificate_policies_der(b) {
            Some(v) => Some(Extension::CertificatePolicies(v)),
            None => None,
        },
    }
}

/// Decodes the payload of an extension of the given kind.
pub fn decode_payload(k: ExtensionKind, b: &[u8]) -> (r: core::result::Result<Extension, x509_cert::der::Error>)
    ensures
        r is Ok <==> payload_spec(k, b@) is Some,
        r matches Ok(e) ==> payload_spec(k, b@) == Some(e),
{
    match k {
        ExtensionKind::BasicConstraints => match decode_basic_constraints(b) {
            Ok(v) => Ok(Extension::BasicConstraints(v)),
            Err(e) => Err(e),
        },
        ExtensionKind::KeyUsage => match decode_key_usage(b) {
            Ok(v) => Ok(Extension::KeyUsage(v)),
            Err(e) => Err(e),
        },
        ExtensionKind::ExtendedKeyUsage => match decode_extended_key_usage(b) {
            Ok(v) => Ok(Extension::ExtendedKeyUsage(v)),
            Err(e) => Err(e),
        },
        ExtensionKind::SubjectAlternativeName => match decode_subject_alt_name(b) {
            Ok(v) => Ok(Extension::SubjectAlternativeName(v)),
            Err(e) => Err(e),
        },
        ExtensionKind::AuthorityKeyIdentifier => match decode_authority_key_identifier(b) {
            Ok(v) => Ok(Extension::AuthorityKeyIdentifier(v)),
            Err(e) => Err(e),
        },
        ExtensionKind::SubjectKeyIdentifier => match decode_subject_key_identifier(b) {
            Ok(v) => Ok(Extension::SubjectKeyIdentifier(v)),
            Err(e) => Err(e),
        },
        ExtensionKind::CertificatePolicies => match decode_certificate_policies(b) {
            Ok(v) => Ok(Extension::CertificatePolicies(v)),
            Err(e) => Err(e),
        },
    }
}

/// Whether an entry aborts parsing: a recognized payload that does not
/// decode, or an unrecognized extension marked critical.
pub open spec fn entry_fails(e: RawExtension) -> bool {
    match oid_kind(e.oid@) {
        Some(k) => payload_spec(k, e.value@) is None,
        None => e.critical,
    }
}

/// What an entry that does not fail contributes: its decoded payload when
/// recognized, nothing when not.
pub open spec fn entry_parsed(e: RawExtension) -> Seq<Extension> {
    match oid_kind(e.oid@) {
        Some(k) => match payload_spec(k, e.value@) {
            Some(x) => seq![x],
            None => seq![],
        },
        None => seq![],
    }
}

/// The extensions parsed from the first `n` entries, in order.
pub open spec fn parsed_prefix(raw: Seq<RawExtension>, n: nat) -> Seq<Extension>
    decreases n,
{
    if n == 0 {
        seq![]
    } else {
        parsed_prefix(raw, (n - 1) as nat) + entry_parsed(raw[n - 1])
    }
}

/// Whether `e` reports an unsupported critical extension with this OID.
pub open spec fn is_unsupported(e: crate::error::Error, oid: Seq<u8>) -> bool {
    match e {
        crate::error::Error::Certificate(Error::UnsupportedExtension(o)) => o@ == oid,
        _ => false,
    }
}

/// Whether `e` is the error for the first failing entry of `raw`: a decode
/// error for a recognized payload, `UnsupportedExtension` with the OID for an
/// unrecognized critical extension.
pub open spec fn is_parse_error(raw: Seq<RawExtension>, e: crate::error::Error) -> bool {
    exists|i: int|
        0 <= i < raw.len() && entry_fails(#[trigger] raw[i])
            && (forall|j: int| 0 <= j < i ==> !entry_fails(#[trigger] raw[j]))
            && (oid_kind(raw[i].oid@) is Some ==> e is Asn1)
            && (oid_kind(raw[i].oid@) is None ==> is_unsupported(e, raw[i].oid@))
}

/// Parses a certificate's raw extension list, failing closed: a recognized
/// extension whose payload does not decode, or an unrecognized critical
/// one, aborts with the first such entry's error; an unrecognized
/// non-critical one is dropped. Order is kept.
pub fn parse_extensions(raw: &[RawExtension]) -> (r: crate::Result<Extensions>)
    ensures
        r is Ok <==> forall|i: int| 0 <= i < raw@.len() ==> !entry_fails(#[trigger] raw@[i]),
        r matches Ok(v) ==> v@ == parsed_prefix(raw@, raw@.len()),
        r matches Err(e) ==> is_parse_error(raw@, e),
{
    let mut out: Extensions = Vec::new();
    let mut i: usize = 0;
    while i < raw.len()
        invariant
            i <= raw@.len(),
            out@ == parsed_prefix(raw@, i as nat),
            forall|j: int| 0 <= j < i ==> !entry_fails(#[trigger] raw@[j]),
        decreases raw@.len() - i,
    {
        let e = &raw[i];
        match kind_of_oid(e.oid.as_slice()) {
            Some(k) => match decode_payload(k, e.value.as_slice()) {
                Ok(x) => {
                    out.push(x);
                },
                Err(err) => {
                    return Err(crate::error::Error::Asn1(err));
                },
            },
            None => {
                if e.critical {
                    let oid = crate::bytes::copy_bytes(e.oid.as_slice());
                    return Err(crate::error::Error::Certificate(Error::UnsupportedExtension(oid)));
                }
            },
        }
        assert(out@ =~= parsed_prefix(raw@, (i + 1) as nat));
        i = i + 1;
    }
    Ok(out)
}


/// The position of the first extension of kind `k` at or after `i`.
pub open spec fn first_position(exts: Seq<Extension>, k: ExtensionKind, i: int) -> Option<int>
    decreases exts.len() - i,
{
    if i < 0 || i >= exts.len() {
        None
    } else if exts[i].kind_spec() == k {
        Some(i)
    } else {
        first_position(exts, k, i + 1)
    }
}

/// The first extension of kind `k`, if any.
pub open spec fn first_of(exts: Seq<Extension>, k: ExtensionKind) -> Option<Extension> {
    match first_position(exts, k, 0) {
        Some(i) => Some(exts[i]),
        None => None,
    }
}

/// Finds the first extension of kind `k`.
fn position_of(exts: &[Extension], k: ExtensionKind) -> (r: Option<usize>)
    ensures
        r matches Some(i) ==> first_position(exts@, k, 0) == Some(i as int) && i < exts@.len(),
        r is None ==> first_position(exts@, k, 0) is None,
{
    let mut i: usize = 0;
    while i < exts.len()
        invariant
            i <= exts@.len(),
            first_position(exts@, k, 0) == first_position(exts@, k, i as int),
        decreases exts@.len() - i,
    {
        if exts[i].kind() == k {
            return Some(i);
        }
        i = i + 1;
    }
    None
}

impl Certificate {
    /// The first BasicConstraints extension's payload, if any.
    pub open spec fn basic_constraints_spec(self) -> Option<BasicConstraints> {
        match first_of(self@.extensions, ExtensionKind::BasicConstraints) {
            Some(Extension::BasicConstraints(v)) => Some(v),
            _ => None,
        }
    }

    /// The first BasicConstraints extension's payload, if any.
    pub fn get_basic_constraints(&self) -> (r: Option<&BasicConstraints>)
        ensures
            r is Some <==> self.basic_constraints_spec() is Some,
            r matches Some(v) ==> self.basic_constraints_spec() == Some(*v),
    {
        let exts = self.extensions();
        match position_of(exts, ExtensionKind::BasicConstraints) {
            Some(i) => match &exts[i] {
                Extension::BasicConstraints(v) => Some(v),
                _ => None,
            },
            None => None,
        }
    }

    /// The first KeyUsage extension's payload, if any.
    pub open spec fn key_usage_spec(self) -> Option<KeyUsage> {
        match first_of(self@.extensions, ExtensionKind::KeyUsage) {
            Some(Extension::KeyUsage(v)) => Some(v),
            _ => None,
        }
    }

    /// The first KeyUsage extension's payload, if any.
    pub fn get_key_usage(&self) -> (r: Option<&KeyUsage>)
        ensures
            r is Some <==> self.key_usage_spec() is Some,
            r matches Some(v) ==> self.key_usage_spec() == Some(*v),
    {
        let exts = self.extensions();
        match position_of(exts, ExtensionKind::KeyUsage) {
            Some(i) => match &exts[i] {
                Extension::KeyUsage(v) => Some(v),
                _ => None,
            },
            None => None,
        }
    }

    /// The first ExtendedKeyUsage extension's payload, if any.
    pub open spec fn extended_key_usage_spec(self) -> Option<ExtendedKeyUsage> {
        match first_of(self@.extensions, ExtensionKind::ExtendedKeyUsage) {
            Some(Extension::ExtendedKeyUsage(v)) => Some(v),
            _ => None,
        }
    }

    /// The first ExtendedKeyUsage extension's payload, if any.
    pub fn get_extended_key_usage(&self) -> (r: Option<&ExtendedKeyUsage>)
        ensures
            r is Some <==> self.extended_key_usage_spec() is Some,
            r matches Some(v) ==> self.extended_key_usage_spec() == Some(*v),
    {
        let exts = self.extensions();
        match position_of(exts, ExtensionKind::ExtendedKeyUsage) {
            Some(i) => match &exts[i] {
                Extension::ExtendedKeyUsage(v) => Some(v),
                _ => None,
            },
            None => None,
        }
    }

    /// The first SubjectAlternativeName extension's payload, if any.
    pub open spec fn subject_alt_name_spec(self) -> Option<x509_cert::ext::pkix::SubjectAltName> {
        match first_of(self@.extensions, ExtensionKind::SubjectAlternativeName) {
            Some(Extension::SubjectAlternativeName(v)) => Some(v),
            _ => None,
        }
    }

    /// The first SubjectAlternativeName extension's payload, if any.
    pub fn get_subject_alt_name(&self) -> (r: Option<&x509_cert::ext::pkix::SubjectAltName>)
        ensures
            r is Some <==> self.subject_alt_name_spec() is Some,
            r matches Some(v) ==> self.subject_alt_name_spec() == Some(*v),
    {
        let exts = self.extensions();
        match position_of(exts, ExtensionKind::SubjectAlternativeName) {
            Some(i) => match &exts[i] {
                Extension::SubjectAlternativeName(v) => Some(v),
                _ => None,
            },
            None => None,
        }
    }

    /// The first AuthorityKeyIdentifier extension's payload, if any.
    pub open spec fn authority_key_identifier_spec(self) -> Option<AuthorityKeyIdentifier> {
        match first_of(self@.extensions, ExtensionKind::AuthorityKeyIdentifier) {
            Some(Extension::AuthorityKeyIdentifier(v)) => Some(v),
            _ => None,
        }
    }

    /// The first AuthorityKeyIdentifier extension's payload, if any.
    pub fn get_authority_key_identifier(&self) -> (r: Option<&AuthorityKeyIdentifier>)
        ensures
            r is Some <==> self.authority_key_identifier_spec() is Some,
            r matches Some(v) ==> self.authority_key_identifier_spec() == Some(*v),
    {
        let exts = self.extensions();
        match position_of(exts, ExtensionKind::AuthorityKeyIdentifier) {
            Some(i) => match &exts[i] {
                Extension::AuthorityKeyIdentifier(v) => Some(v),
                _ => None,
            },
            None => None,
        }
    }

    /// The first SubjectKeyIdentifier extension's payload, if any.
    pub open spec fn subject_key_identifier_spec(self) -> Option<SubjectKeyIdentifier> {
        match first_of(self@.extensions, ExtensionKind::SubjectKeyIdentifier) {
            Some(Extension::SubjectKeyIdentifier(v)) => Some(v),
            _ => None,
        }
    }

    /// The first SubjectKeyIdentifier extension's payload, if any.
    pub fn get_subject_key_identifier(&self) -> (r: Option<&SubjectKeyIdentifier>)
        ensures
            r is Some <==> self.subject_key_identifier_spec() is Some,
            r matches Some(v) ==> self.subject_key_identifier_spec() == Some(*v),
    {
        let exts = self.extensions();
        match position_of(exts, ExtensionKind::SubjectKeyIdentifier) {
            Some(i) => match &exts[i] {
                Extension::SubjectKeyIdentifier(v) => Some(v),
                _ => None,
            },
            None => None,
        }
    }

    /// The first CertificatePolicies extension's payload, if any.
    pub open spec fn certificate_policies_spec(self) -> Option<x509_cert::ext::pkix::CertificatePolicies> {
        match first_of(self@.extensions, ExtensionKind::CertificatePolicies) {
            Some(Extension::CertificatePolicies(v)) => Some(v),
            _ => None,
        }
    }

    /// The first CertificatePolicies extension's payload, if any.
    pub fn get_certificate_policies(&self) -> (r: Option<&x509_cert::ext::pkix::CertificatePolicies>)
        ensures
            r is Some <==> self.certificate_policies_spec() is Some,
            r matches Some(v) ==> self.certificate_policies_spec() == Some(*v),
    {
        let exts = self.extensions();
        match position_of(exts, ExtensionKind::CertificatePolicies) {
            Some(i) => match &exts[i] {
                Extension::CertificatePolicies(v) => Some(v),
                _ => None,
            },
            None => None,
        }
    }
}

} // verus!
