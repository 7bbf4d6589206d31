//! Certificates, certificate chains and their staged builder.
use vstd::prelude::*;

pub mod codec;
pub mod extension;
pub mod laws;
pub mod validate;
pub mod verify;

use self::codec::{
    der_canonical, name_texts_der, names_der, pem_canonical, pem_text,
    public_key_der, raw_extensions_der, serial_der, signature_der, spki_der, spki_fingerprint, tbs_der, validity_der,
};
use self::extension::{entry_fails, is_parse_error, parsed_prefix, Extensions, RawExtension};

verus! {

/// Failures of certificate decoding and validation.
#[derive(Debug)]
pub enum Error {
    /// The certificate is not valid yet.
    CertificateImmature,
    /// The certificate has expired.
    CertificateExpired,
    /// The certificate is not valid.
    CertificateInvalid,
    /// The signature algorithm is not supported.
    AlgorithmUnsupported,
    /// The issuer's key algorithm differs from the subject's signature algorithm.
    AlgorithmMismatch,
    /// A signer is not a CA, or a path length constraint is exceeded.
    BasicConstraintsViolation,
    /// A signer's key usage lacks keyCertSign.
    KeyUsageViolation,
    /// A signer's subject name differs from the next certificate's issuer name.
    IssuerSubjectMismatch,
    /// A key identifier or serial number does not link to the signer.
    AuthorityKeyIdentifierMismatch,
    /// A critical extension that is not recognized (its OID's content octets).
    UnsupportedExtension(Vec<u8>),
}

/// A validity window, in whole seconds since the Unix epoch.
#[derive(Debug, Clone, Copy, PartialEq, Eq, Structural)]
pub struct Validity {
    pub not_before: u64,
    pub not_after: u64,
}

/// An algorithm identifier: the OID's content octets and the DER encoding of
/// its parameters, if any.
#[derive(Debug, Clone)]
pub struct AlgorithmIdentifier {
    pub oid: Vec<u8>,
    pub parameters: Option<Vec<u8>>,
}

/// The mathematical content of an algorithm identifier.
pub struct AlgorithmView {
    pub oid: Seq<u8>,
    pub parameters: Option<Seq<u8>>,
}

impl View for AlgorithmIdentifier {
    type V = AlgorithmView;

    open spec fn view(&self) -> AlgorithmView {
        AlgorithmView { oid: self.oid@, parameters: crate::bytes::opt_view(self.parameters) }
    }
}

/// The mathematical content of a certificate: names as the DER encoding of
/// the Name structure, so that equal names have equal encodings.
pub struct CertificateView {
    pub der: Seq<u8>,
    pub subject_text: Seq<char>,
    pub issuer_text: Seq<char>,
    pub serial_text: Seq<char>,
    pub subject: Seq<u8>,
    pub issuer: Seq<u8>,
    pub serial: Seq<u8>,
    pub validity: Validity,
    pub key_algorithm: AlgorithmView,
    pub public_key: Option<Seq<u8>>,
    pub spki: Seq<u8>,
    pub signature_algorithm: AlgorithmView,
    pub signature: Option<Seq<u8>>,
    pub tbs: Seq<u8>,
    pub extensions: Seq<extension::Extension>,
}

/// The certificate that a canonical DER encoding decodes to, if every part
/// decodes and no extension fails (see `parse_extensions`).
pub open spec fn decoded(der: Seq<u8>) -> Option<CertificateView> {
    match (names_der(der), name_texts_der(der), serial_der(der), validity_der(der)) {
        (Some(names), Some(texts), Some(serial), Some(validity)) => match (
            public_key_der(der),
            signature_der(der),
            tbs_der(der),
            raw_extensions_der(der),
            spki_der(der),
        ) {
            (Some(key), Some(sig), Some(tbs), Some(raw), Some(spki)) => if forall|i: int|
                0 <= i < raw.len() ==> !entry_fails(#[trigger] raw[i]) {
                Some(
                    CertificateView {
                        der,
                        subject_text: texts.0,
                        issuer_text: texts.1,
                        serial_text: serial.1,
                        subject: names.0,
                        issuer: names.1,
                        serial: serial.0,
                        validity,
                        key_algorithm: key.0,
                        public_key: key.1,
                        spki,
                        signature_algorithm: sig.0,
                        signature: sig.1,
                        tbs,
                        extensions: parsed_prefix(raw, raw.len()),
                    },
                )
            } else {
                None
            },
            _ => None,
        },
        _ => None,
    }
}

/// Whether `e` is the error of decoding the canonical encoding `der`: a
/// decode error when one of its parts does not decode, else the error of
/// the first failing extension.
pub open spec fn is_decode_error(der: Seq<u8>, e: crate::error::Error) -> bool {
    if names_der(der) is Some && name_texts_der(der) is Some && serial_der(der) is Some
        && validity_der(der) is Some && public_key_der(der) is Some && signature_der(der) is Some
        && tbs_der(der) is Some && spki_der(der) is Some && raw_extensions_der(der) is Some {
        is_parse_error(raw_extensions_der(der)->Some_0, e)
    } else {
        e is Asn1
    }
}

/// A decoded certificate with its typed extensions; immutable once made.
#[derive(Debug)]
pub struct Certificate {
    der: Vec<u8>,
    subject: Vec<u8>,
    subject_text: String,
    issuer_text: String,
    serial_text: String,
    issuer: Vec<u8>,
    serial: Vec<u8>,
    validity: Validity,
    key_algorithm: AlgorithmIdentifier,
    public_key: Option<Vec<u8>>,
    spki: Vec<u8>,
    signature_algorithm: AlgorithmIdentifier,
    signature: Option<Vec<u8>>,
    tbs: Vec<u8>,
    parsed_extensions: Extensions,
}

impl View for Certificate {
    type V = CertificateView;

    closed spec fn view(&self) -> CertificateView {
        CertificateView {
            der: self.der@,
            subject_text: self.subject_text@,
            issuer_text: self.issuer_text@,
            serial_text: self.serial_text@,
            subject: self.subject@,
            issuer: self.issuer@,
            serial: self.serial@,
            validity: self.validity,
            key_algorithm: self.key_algorithm@,
            public_key: crate::bytes::opt_view(self.public_key),
            spki: self.spki@,
            signature_algorithm: self.signature_algorithm@,
            signature: crate::bytes::opt_view(self.signature),
            tbs: self.tbs@,
            extensions: self.parsed_extensions@,
        }
    }
}


impl Certificate {
    /// Builds a certificate from its canonical DER encoding: every part is
    /// read from it, and its extensions are parsed, failing closed.
    fn from_canonical(der: Vec<u8>) -> (r: crate::Result<Self>)
        ensures
            r is Ok <==> decoded(der@) is Some,
            r matches Ok(c) ==> decoded(der@) == Some(c@),
            r matches Err(e) ==> is_decode_error(der@, e),
    {
        let (subject, issuer) = match codec::names_of(der.as_slice()) {
            Ok(v) => v,
            Err(e) => return Err(crate::error::Error::Asn1(e)),
        };
        let (subject_text, issuer_text) = match codec::name_texts_of(der.as_slice()) {
            Ok(v) => v,
            Err(e) => return Err(crate::error::Error::Asn1(e)),
        };
        let (serial, serial_text) = match codec::serial_of(der.as_slice()) {
            Ok(v) => v,
            Err(e) => return Err(crate::error::Error::Asn1(e)),
        };
        let validity = match codec::validity_of(der.as_slice()) {
            Ok(v) => v,
            Err(e) => return Err(crate::error::Error::Asn1(e)),
        };
        let (key_algorithm, public_key) = match codec::public_key_of(der.as_slice()) {
            Ok(v) => v,
            Err(e) => return Err(crate::error::Error::Asn1(e)),
        };
        let (signature_algorithm, signature) = match codec::signature_of(der.as_slice()) {
            Ok(v) => v,
            Err(e) => return Err(crate::error::Error::Asn1(e)),
        };
        let tbs = match codec::tbs_of(der.as_slice()) {
            Ok(v) => v,
            Err(e) => return Err(crate::error::Error::Asn1(e)),
        };
        let spki = match codec::spki_of(der.as_slice()) {
            Ok(v) => v,
            Err(e) => return Err(crate::error::Error::Asn1(e)),
        };
        let raw: Vec<RawExtension> = match codec::raw_extensions_of(der.as_slice()) {
            Ok(v) => v,
            Err(e) => return Err(crate::error::Error::Asn1(e)),
        };
        let parsed_extensions = extension::parse_extensions(raw.as_slice())?;
        Ok(Certificate {
            der,
            subject,
            subject_text,
            issuer_text,
            serial_text,
            issuer,
            serial,
            validity,
            key_algorithm,
            public_key,
            spki,
            signature_algorithm,
            signature,
            tbs,
            parsed_extensions,
        })
    }

    /// Decodes a certificate from DER; fails on a malformed structure and on
    /// the extension failures of `parse_extensions`.
    pub fn from_der(bytes: &[u8]) -> (r: crate::Result<Self>)
        ensures
            r is Ok <==> (der_canonical(bytes@) matches Some(d) && decoded(d) is Some),
            r matches Ok(c) ==> der_canonical(bytes@) == Some(c@.der) && decoded(c@.der) == Some(c@),
            r matches Err(e) ==> match der_canonical(bytes@) {
                Some(d) => is_decode_error(d, e),
                None => e is Asn1,
            },
    {
        match codec::canonical_from_der(bytes) {
            Ok(der) => Self::from_canonical(der),
            Err(e) => Err(crate::error::Error::Asn1(e)),
        }
    }

    /// Decodes a certificate from PEM; fails as `from_der` does.
    pub fn from_pem(pem: &[u8]) -> (r: crate::Result<Self>)
        ensures
            r is Ok <==> (pem_canonical(pem@) matches Some(d) && decoded(d) is Some),
            r matches Ok(c) ==> pem_canonical(pem@) == Some(c@.der) && decoded(c@.der) == Some(c@),
            r matches Err(e) ==> match pem_canonical(pem@) {
                Some(d) => is_decode_error(d, e),
                None => e is Asn1,
            },
    {
        match codec::canonical_from_pem(pem) {
            Ok(der) => Self::from_canonical(der),
            Err(e) => Err(crate::error::Error::Asn1(e)),
        }
    }

    /// The canonical DER encoding.
    pub fn to_der(&self) -> (r: crate::Result<Vec<u8>>)
        ensures
            r matches Ok(v) && v@ == self@.der,
    {
        Ok(crate::bytes::copy_bytes(self.der.as_slice()))
    }

    /// The PEM encoding, with LF line endings.
    pub fn to_pem(&self) -> (r: crate::Result<String>)
        ensures
            r is Ok <==> pem_text(self@.der) is Some,
            r matches Ok(v) ==> pem_text(self@.der) == Some(v@),
    {
        match codec::pem_of(self.der.as_slice()) {
            Ok(s) => Ok(s),
            Err(e) => Err(crate::error::Error::Asn1(e)),
        }
    }

    /// The validity window.
    pub fn validity(&self) -> (r: Validity)
        ensures
            r == self@.validity,
    {
        self.validity
    }

    /// The issuer name, printable.
    pub fn issuer(&self) -> (r: String)
        ensures
            r@ == self@.issuer_text,
    {
        self.issuer_text.clone()
    }

    /// The subject name, printable.
    pub fn subject(&self) -> (r: String)
        ensures
            r@ == self@.subject_text,
    {
        self.subject_text.clone()
    }

    /// The DER encoding of the issuer name.
    pub fn issuer_der(&self) -> (r: &[u8])
        ensures
            r@ == self@.issuer,
    {
        self.issuer.as_slice()
    }

    /// The DER encoding of the subject name.
    pub fn subject_der(&self) -> (r: &[u8])
        ensures
            r@ == self@.subject,
    {
        self.subject.as_slice()
    }

    /// The serial number's bytes.
    pub fn serial_bytes(&self) -> (r: &[u8])
        ensures
            r@ == self@.serial,
    {
        self.serial.as_slice()
    }

    /// The serial number, printable.
    pub fn serial_string(&self) -> (r: String)
        ensures
            r@ == self@.serial_text,
    {
        self.serial_text.clone()
    }

    /// The Base64 SHA-256 fingerprint of the subject public key info.
    pub fn fingerprint_base64(&self) -> (r: crate::Result<String>)
        ensures
            r is Ok <==> spki_fingerprint(self@.spki) is Some,
            r matches Ok(v) ==> spki_fingerprint(self@.spki) == Some(v@),
    {
        match codec::fingerprint_of_spki(self.spki.as_slice()) {
            Ok(s) => Ok(s),
            Err(e) => Err(crate::error::Error::Spki(e)),
        }
    }

    /// The DER encoding of the subject public key info.
    pub fn spki_bytes(&self) -> (r: &[u8])
        ensures
            r@ == self@.spki,
    {
        self.spki.as_slice()
    }

    /// The subject public key's bytes; fails when its bits are not a whole
    /// number of bytes.
    pub fn public_key_bytes(&self) -> (r: crate::Result<&[u8]>)
        ensures
            self@.public_key matches Some(k) ==> r matches Ok(b) && b@ == k,
            self@.public_key is None ==> r == Err::<&[u8], _>(
                crate::error::Error::Spki(spki::Error::KeyMalformed),
            ),
    {
        match &self.public_key {
            Some(k) => Ok(k.as_slice()),
            None => Err(crate::error::Error::Spki(codec::key_malformed())),
        }
    }

    /// The algorithm of the subject public key.
    pub fn key_algorithm(&self) -> (r: &AlgorithmIdentifier)
        ensures
            r@ == self@.key_algorithm,
    {
        &self.key_algorithm
    }

    /// The algorithm the issuer signed this certificate with.
    pub fn signature_algorithm(&self) -> (r: &AlgorithmIdentifier)
        ensures
            r@ == self@.signature_algorithm,
    {
        &self.signature_algorithm
    }

    /// The signature bytes, if its bits are a whole number of bytes.
    pub fn signature_bytes(&self) -> (r: Option<&[u8]>)
        ensures
            self@.signature matches Some(s) ==> r matches Some(b) && b@ == s,
            self@.signature is None ==> r is None,
    {
        match &self.signature {
            Some(s) => Some(s.as_slice()),
            None => None,
        }
    }

    /// The public key bytes, if its bits are a whole number of bytes.
    pub fn public_key(&self) -> (r: Option<&[u8]>)
        ensures
            self@.public_key matches Some(k) ==> r matches Some(b) && b@ == k,
            self@.public_key is None ==> r is None,
    {
        match &self.public_key {
            Some(k) => Some(k.as_slice()),
            None => None,
        }
    }

    /// The to-be-signed bytes, over which the issuer's signature is made.
    pub fn tbs_bytes(&self) -> (r: &[u8])
        ensures
            r@ == self@.tbs,
    {
        self.tbs.as_slice()
    }

    /// The typed extensions, in the certificate's order.
    pub fn extensions(&self) -> (r: &[extension::Extension])
        ensures
            r@ == self@.extensions,
    {
        self.parsed_extensions.as_slice()
    }
}

/// The views of a sequence of certificates.
pub open spec fn views(certs: Seq<Certificate>) -> Seq<CertificateView> {
    certs.map_values(|c: Certificate| c@)
}

/// Zero or more intermediates, issuer-most first, and the leaf.
#[derive(Debug)]
pub struct CertificateChain {
    intermediates: Vec<Certificate>,
    leaf: Certificate,
}

impl View for CertificateChain {
    type V = Seq<CertificateView>;

    /// The chain's members in order: the intermediates, then the leaf.
    closed spec fn view(&self) -> Seq<CertificateView> {
        views(self.intermediates@).push(self.leaf@)
    }
}

impl CertificateChain {
    /// A chain of `intermediates` (issuer-most first) ending in `leaf`.
    pub fn new(intermediates: Vec<Certificate>, leaf: Certificate) -> (r: Self)
        ensures
            r@ == views(intermediates@).push(leaf@),
    {
        CertificateChain { intermediates, leaf }
    }

    /// The intermediates, issuer-most first.
    pub fn intermediates(&self) -> (r: &[Certificate])
        ensures
            views(r@) == self@.drop_last(),
            self@.len() == r@.len() + 1,
    {
        proof {
            assert(views(self.intermediates@) =~= self@.drop_last());
        }
        self.intermediates.as_slice()
    }

    /// The leaf.
    pub fn leaf(&self) -> (r: &Certificate)
        ensures
            r@ == self@.last(),
    {
        &self.leaf
    }

    /// The members in order: the intermediates, then the leaf.
    pub fn iter(&self) -> (r: Vec<&Certificate>)
        ensures
            r@.len() == self@.len(),
            forall|i: int| 0 <= i < r@.len() ==> (#[trigger] r@[i])@ == self@[i],
    {
        let mut out: Vec<&Certificate> = Vec::new();
        let mut i: usize = 0;
        while i < self.intermediates.len()
            invariant
                i <= self.intermediates@.len(),
                out@.len() == i,
                forall|j: int| 0 <= j < i ==> (#[trigger] out@[j])@ == self.intermediates@[j]@,
            decreases self.intermediates@.len() - i,
        {
            out.push(&self.intermediates[i]);
            i = i + 1;
        }
        out.push(&self.leaf);
        out
    }
}

/// A staged builder of a `CertificateChain`: the leaf first, then the
/// intermediates, so that an incomplete chain cannot be built.
pub struct CertificateChainBuilder<State>(State);

/// The first stage: the leaf is wanted.
pub struct WantsLeaf(());

/// The second stage: the leaf is set, the intermediates are wanted.
pub struct WantsIntermediates {
    leaf: Certificate,
}

/// The last stage: more intermediates may be added, or the chain built.
pub struct Optional {
    leaf: Certificate,
    intermediates: Vec<Certificate>,
}

impl Default for CertificateChainBuilder<WantsLeaf> {
    fn default() -> (r: Self) {
        CertificateChainBuilder(WantsLeaf(()))
    }
}

impl CertificateChainBuilder<WantsLeaf> {
    /// Sets the leaf certificate.
    pub fn set_leaf(self, cert: Certificate) -> (r: CertificateChainBuilder<WantsIntermediates>)
        ensures
            r.leaf_view() == cert@,
    {
        CertificateChainBuilder(WantsIntermediates { leaf: cert })
    }
}

impl CertificateChainBuilder<WantsIntermediates> {
    /// The leaf that was set.
    pub closed spec fn leaf_view(self) -> CertificateView {
        self.0.leaf@
    }

    /// Sets the intermediate certificates, issuer-most first.
    pub fn set_intermediates(self, certs: Vec<Certificate>) -> (r: CertificateChainBuilder<Optional>)
        ensures
            r.pending() == views(certs@).push(self.leaf_view()),
    {
        CertificateChainBuilder(Optional { leaf: self.0.leaf, intermediates: certs })
    }
}

impl CertificateChainBuilder<Optional> {
    /// The chain that `build` will return.
    pub closed spec fn pending(self) -> Seq<CertificateView> {
        views(self.0.intermediates@).push(self.0.leaf@)
    }

    /// Adds intermediates after those already set.
    pub fn add_intermediates(self, certs: Vec<Certificate>) -> (r: Self)
        ensures
            r.pending() == (self.pending().drop_last() + views(certs@)).push(self.pending().last()),
    {
        let CertificateChainBuilder(Optional { leaf, mut intermediates }) = self;
        let mut certs = certs;
        let ghost before = intermediates@;
        let ghost added = certs@;
        intermediates.append(&mut certs);
        proof {
            assert(views(before) =~= self.pending().drop_last());
            assert(views(intermediates@) =~= views(before) + views(added));
        }
        CertificateChainBuilder(Optional { leaf, intermediates })
    }

    /// Builds the chain.
    pub fn build(self) -> (r: crate::Result<CertificateChain>)
        ensures
            r matches Ok(c) && c@ == self.pending(),
    {
        Ok(CertificateChain::new(self.0.intermediates, self.0.leaf))
    }
}

} // verus!
