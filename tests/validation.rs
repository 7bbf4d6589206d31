use std::str::FromStr;
use std::time::Duration;

use const_oid::{AssociatedOid, ObjectIdentifier};
use ed25519_dalek::Signer as EdSigner;
use p256::ecdsa::signature::Signer as P256Signer;
use p384::ecdsa::signature::Signer as P384Signer;
use x509_cert::certificate::{TbsCertificate, Version};
use x509_cert::der::asn1::{BitString, OctetString, UtcTime};
use x509_cert::der::flagset::FlagSet;
use x509_cert::der::{Any, Encode, Tag};
use x509_cert::ext::pkix::{
    AuthorityKeyIdentifier, BasicConstraints, KeyUsage, KeyUsages, SubjectKeyIdentifier,
};
use x509_cert::name::Name;
use x509_cert::serial_number::SerialNumber;
use x509_cert::spki::{AlgorithmIdentifierOwned, SubjectPublicKeyInfoOwned};
use x509_cert::time::{Time, Validity};

use pki_rs::certificate::extension::{
    kind_of_oid, parse_extensions, Extension, ExtensionKind, RawExtension,
};
use pki_rs::certificate::{Certificate, CertificateChainBuilder, Error as CertError};
use pki_rs::error::Error;
use pki_rs::signature::{scheme_of_oid, Error as SigError, Scheme, SignatureVerifier};

const ED25519: ObjectIdentifier = ObjectIdentifier::new_unwrap("1.3.101.112");
const ECDSA_SHA256: ObjectIdentifier = ObjectIdentifier::new_unwrap("1.2.840.10045.4.3.2");
const ECDSA_SHA384: ObjectIdentifier = ObjectIdentifier::new_unwrap("1.2.840.10045.4.3.3");

/// 2020-01-01T00:00:00Z
const START: u64 = 1_577_836_800;
/// 2049-01-01T00:00:00Z
const END: u64 = 2_493_072_000;
/// 2023-11-14T22:13:20Z
const NOW: u64 = 1_700_000_000;

#[derive(Clone, Copy)]
enum Key {
    Ed(u8),
    P256(u8),
    P384(u8),
}

impl Key {
    fn algorithm(self) -> AlgorithmIdentifierOwned {
        let oid = match self {
            Key::Ed(_) => ED25519,
            Key::P256(_) => ECDSA_SHA256,
            Key::P384(_) => ECDSA_SHA384,
        };
        AlgorithmIdentifierOwned { oid, parameters: None }
    }

    fn public(self) -> Vec<u8> {
        match self {
            Key::Ed(s) => ed25519_dalek::SigningKey::from_bytes(&[s; 32])
                .verifying_key()
                .as_bytes()
                .to_vec(),
            Key::P256(s) => p256::ecdsa::SigningKey::from_slice(&[s; 32])
                .unwrap()
                .verifying_key()
                .to_encoded_point(false)
                .as_bytes()
                .to_vec(),
            Key::P384(s) => p384::ecdsa::SigningKey::from_slice(&[s; 48])
                .unwrap()
                .verifying_key()
                .to_encoded_point(false)
                .as_bytes()
                .to_vec(),
        }
    }

    fn sign(self, msg: &[u8]) -> Vec<u8> {
        match self {
            Key::Ed(s) => EdSigner::sign(&ed25519_dalek::SigningKey::from_bytes(&[s; 32]), msg)
                .to_bytes()
                .to_vec(),
            Key::P256(s) => {
                let sk = p256::ecdsa::SigningKey::from_slice(&[s; 32]).unwrap();
                let sig: p256::ecdsa::Signature = P256Signer::sign(&sk, msg);
                sig.to_der().as_bytes().to_vec()
            }
            Key::P384(s) => {
                let sk = p384::ecdsa::SigningKey::from_slice(&[s; 48]).unwrap();
                let sig: p384::ecdsa::Signature = P384Signer::sign(&sk, msg);
                sig.to_der().as_bytes().to_vec()
            }
        }
    }
}

struct Spec {
    subject: &'static str,
    issuer: &'static str,
    serial: u8,
    key: Key,
    signer: Key,
    not_before: u64,
    not_after: u64,
    extensions: Vec<x509_cert::ext::Extension>,
    signature_algorithm: Option<AlgorithmIdentifierOwned>,
    key_unused_bits: u8,
}

fn spec(subject: &'static str, issuer: &'static str, key: Key, signer: Key) -> Spec {
    Spec {
        subject,
        issuer,
        serial: 1,
        key,
        signer,
        not_before: START,
        not_after: END,
        extensions: Vec::new(),
        signature_algorithm: None,
        key_unused_bits: 0,
    }
}

fn ext<T: Encode + AssociatedOid>(value: T, critical: bool) -> x509_cert::ext::Extension {
    x509_cert::ext::Extension {
        extn_id: T::OID,
        critical,
        extn_value: OctetString::new(value.to_der().unwrap()).unwrap(),
    }
}

fn raw_ext(oid: &str, critical: bool, value: &[u8]) -> x509_cert::ext::Extension {
    x509_cert::ext::Extension {
        extn_id: ObjectIdentifier::new_unwrap(oid),
        critical,
        extn_value: OctetString::new(value.to_vec()).unwrap(),
    }
}

fn bc(ca: bool, path_len_constraint: Option<u8>) -> x509_cert::ext::Extension {
    ext(BasicConstraints { ca, path_len_constraint }, true)
}

fn ku(flags: FlagSet<KeyUsages>) -> x509_cert::ext::Extension {
    ext(KeyUsage(flags), true)
}

fn ca_exts() -> Vec<x509_cert::ext::Extension> {
    vec![bc(true, None), ku(KeyUsages::KeyCertSign | KeyUsages::CRLSign)]
}

fn time(secs: u64) -> Time {
    Time::UtcTime(UtcTime::from_unix_duration(Duration::from_secs(secs)).unwrap())
}

fn der_of(s: Spec) -> Vec<u8> {
    let signature_algorithm = s.signature_algorithm.unwrap_or(s.signer.algorithm());
    let tbs = TbsCertificate {
        version: Version::V3,
        serial_number: SerialNumber::new(&[s.serial]).unwrap(),
        signature: signature_algorithm.clone(),
        issuer: Name::from_str(s.issuer).unwrap(),
        validity: Validity { not_before: time(s.not_before), not_after: time(s.not_after) },
        subject: Name::from_str(s.subject).unwrap(),
        subject_public_key_info: SubjectPublicKeyInfoOwned {
            algorithm: s.key.algorithm(),
            subject_public_key: BitString::new(s.key_unused_bits, s.key.public()).unwrap(),
        },
        issuer_unique_id: None,
        subject_unique_id: None,
        extensions: if s.extensions.is_empty() { None } else { Some(s.extensions) },
    };
    let signature = s.signer.sign(&tbs.to_der().unwrap());
    x509_cert::Certificate {
        tbs_certificate: tbs,
        signature_algorithm,
        signature: BitString::from_bytes(&signature).unwrap(),
    }
    .to_der()
    .unwrap()
}

fn build(s: Spec) -> Certificate {
    Certificate::from_der(&der_of(s)).unwrap()
}

fn root(key: Key) -> Spec {
    let mut s = spec("CN=Root", "CN=Root", key, key);
    s.extensions = ca_exts();
    s
}

fn intermediate(key: Key, signer: Key) -> Spec {
    let mut s = spec("CN=Intermediate", "CN=Root", key, signer);
    s.serial = 2;
    s.extensions = ca_exts();
    s
}

fn leaf(key: Key, signer: Key) -> Spec {
    let mut s = spec("CN=Leaf", "CN=Intermediate", key, signer);
    s.serial = 3;
    s.extensions = vec![bc(false, None), ku(KeyUsages::DigitalSignature.into())];
    s
}

fn chain_of(intermediates: Vec<Certificate>, leaf: Certificate) -> pki_rs::certificate::CertificateChain {
    CertificateChainBuilder::default()
        .set_leaf(leaf)
        .set_intermediates(intermediates)
        .build()
        .unwrap()
}

const R: Key = Key::Ed(1);
const I: Key = Key::Ed(2);
const L: Key = Key::Ed(3);

fn valid_chain() -> (Certificate, pki_rs::certificate::CertificateChain) {
    let anchor = build(root(R));
    let chain = chain_of(vec![build(intermediate(I, R))], build(leaf(L, I)));
    (anchor, chain)
}

fn is_rule(r: &Result<(), Error>, e: fn(&CertError) -> bool) -> bool {
    match r {
        Err(Error::Certificate(c)) => e(c),
        _ => false,
    }
}

#[test]
fn validate_chain_period() {
    let (_, chain) = valid_chain();
    assert!(chain.validate_period().is_ok());
}

#[test]
fn validate_valid_chain() {
    let (anchor, chain) = valid_chain();
    assert!(chain.validate_path(&anchor).is_ok());
}

#[test]
fn validate_invalid_chain() {
    let anchor = build(root(R));
    let chain = chain_of(vec![build(intermediate(I, R))], build(leaf(L, Key::Ed(9))));
    assert!(chain.validate_path(&anchor).is_err());
}

#[test]
fn scenario_valid_three_node_chain() {
    let (anchor, chain) = valid_chain();
    assert!(chain.validate_path_at(&anchor, NOW).is_ok());
}

#[test]
fn scenario_intermediate_not_ca() {
    let anchor = build(root(R));
    let mut i = intermediate(I, R);
    i.extensions = vec![bc(false, None), ku(KeyUsages::KeyCertSign.into())];
    let chain = chain_of(vec![build(i)], build(leaf(L, I)));
    let r = chain.validate_path_at(&anchor, NOW);
    assert!(is_rule(&r, |e| matches!(e, CertError::BasicConstraintsViolation)));
}

#[test]
fn intermediate_without_basic_constraints_is_rejected() {
    let anchor = build(root(R));
    let mut i = intermediate(I, R);
    i.extensions = vec![ku(KeyUsages::KeyCertSign.into())];
    let chain = chain_of(vec![build(i)], build(leaf(L, I)));
    let r = chain.validate_path_at(&anchor, NOW);
    assert!(is_rule(&r, |e| matches!(e, CertError::BasicConstraintsViolation)));
}

#[test]
fn scenario_issuer_name_altered() {
    let anchor = build(root(R));
    let mut l = leaf(L, I);
    l.issuer = "CN=Someone Else";
    let chain = chain_of(vec![build(intermediate(I, R))], build(l));
    let r = chain.validate_path_at(&anchor, NOW);
    assert!(is_rule(&r, |e| matches!(e, CertError::IssuerSubjectMismatch)));
}

#[test]
fn scenario_leaf_signed_by_other_key() {
    let anchor = build(root(R));
    let chain = chain_of(vec![build(intermediate(I, R))], build(leaf(L, Key::Ed(9))));
    let r = chain.validate_path_at(&anchor, NOW);
    assert!(matches!(r, Err(Error::Signature(SigError::VerificationFailed))));
}

#[test]
fn validate_period_expired_immature_and_current() {
    let mut s = leaf(L, I);
    s.not_before = 1_000;
    s.not_after = 2_000;
    let c = build(s);
    assert!(is_rule(&c.validate_period_at(2_001), |e| matches!(e, CertError::CertificateExpired)));
    assert!(is_rule(&c.validate_period_at(999), |e| matches!(e, CertError::CertificateImmature)));
    assert!(c.validate_period_at(1_000).is_ok());
    assert!(c.validate_period_at(2_000).is_ok());
    assert!(c.validate_period_at(1_500).is_ok());
    assert_eq!(c.validity().not_before, 1_000);
    assert_eq!(c.validity().not_after, 2_000);
}

#[test]
fn chain_period_checks_leaf_and_intermediates() {
    let mut i = intermediate(I, R);
    i.not_after = 1_600_000_000;
    let chain = chain_of(vec![build(i)], build(leaf(L, I)));
    assert!(is_rule(&chain.validate_period_at(NOW), |e| matches!(e, CertError::CertificateExpired)));
    assert!(chain.validate_period_at(1_590_000_000).is_ok());
}

#[test]
fn expired_trust_anchor_fails_path() {
    let mut a = root(R);
    a.not_after = 1_600_000_000;
    let anchor = build(a);
    let chain = chain_of(vec![build(intermediate(I, R))], build(leaf(L, I)));
    let r = chain.validate_path_at(&anchor, NOW);
    assert!(is_rule(&r, |e| matches!(e, CertError::CertificateExpired)));
}

#[test]
fn expired_leaf_fails_path() {
    let anchor = build(root(R));
    let mut l = leaf(L, I);
    l.not_before = 1_800_000_000;
    let chain = chain_of(vec![build(intermediate(I, R))], build(l));
    let r = chain.validate_path_at(&anchor, NOW);
    assert!(is_rule(&r, |e| matches!(e, CertError::CertificateImmature)));
}

#[test]
fn path_len_zero_followed_by_ca_is_rejected() {
    let mut a = root(R);
    a.extensions = vec![bc(true, Some(0)), ku(KeyUsages::KeyCertSign.into())];
    let anchor = build(a);
    let chain = chain_of(vec![build(intermediate(I, R))], build(leaf(L, I)));
    let r = chain.validate_path_at(&anchor, NOW);
    assert!(is_rule(&r, |e| matches!(e, CertError::BasicConstraintsViolation)));
}

#[test]
fn path_len_zero_followed_by_leaf_is_accepted() {
    let anchor = build(root(R));
    let mut i = intermediate(I, R);
    i.extensions = vec![bc(true, Some(0)), ku(KeyUsages::KeyCertSign.into())];
    let chain = chain_of(vec![build(i)], build(leaf(L, I)));
    assert!(chain.validate_path_at(&anchor, NOW).is_ok());
}

#[test]
fn path_len_one_admits_one_intermediate() {
    let mut a = root(R);
    a.extensions = vec![bc(true, Some(1)), ku(KeyUsages::KeyCertSign.into())];
    let anchor = build(a);
    let chain = chain_of(vec![build(intermediate(I, R))], build(leaf(L, I)));
    assert!(chain.validate_path_at(&anchor, NOW).is_ok());
}

#[test]
fn key_usage_without_key_cert_sign_is_rejected() {
    let anchor = build(root(R));
    let mut i = intermediate(I, R);
    i.extensions = vec![bc(true, None), ku(KeyUsages::DigitalSignature.into())];
    let chain = chain_of(vec![build(i)], build(leaf(L, I)));
    let r = chain.validate_path_at(&anchor, NOW);
    assert!(is_rule(&r, |e| matches!(e, CertError::KeyUsageViolation)));
}

#[test]
fn missing_key_usage_is_accepted() {
    let anchor = build(root(R));
    let mut i = intermediate(I, R);
    i.extensions = vec![bc(true, None)];
    let chain = chain_of(vec![build(i)], build(leaf(L, I)));
    assert!(chain.validate_path_at(&anchor, NOW).is_ok());
}

#[test]
fn authority_key_identifier_links() {
    let anchor = build(root(R));
    let mut i = intermediate(I, R);
    i.extensions.push(ext(SubjectKeyIdentifier(OctetString::new(vec![1, 2, 3]).unwrap()), false));
    let good = AuthorityKeyIdentifier {
        key_identifier: Some(OctetString::new(vec![1, 2, 3]).unwrap()),
        authority_cert_issuer: None,
        authority_cert_serial_number: None,
    };
    let mut l = leaf(L, I);
    l.extensions.push(ext(good, false));
    let chain = chain_of(vec![build(i)], build(l));
    assert!(chain.validate_path_at(&anchor, NOW).is_ok());
}

#[test]
fn authority_key_identifier_mismatch_is_rejected() {
    let anchor = build(root(R));
    let mut i = intermediate(I, R);
    i.extensions.push(ext(SubjectKeyIdentifier(OctetString::new(vec![1, 2, 3]).unwrap()), false));
    let bad = AuthorityKeyIdentifier {
        key_identifier: Some(OctetString::new(vec![9, 9]).unwrap()),
        authority_cert_issuer: None,
        authority_cert_serial_number: None,
    };
    let mut l = leaf(L, I);
    l.extensions.push(ext(bad, false));
    let chain = chain_of(vec![build(i)], build(l));
    let r = chain.validate_path_at(&anchor, NOW);
    assert!(is_rule(&r, |e| matches!(e, CertError::AuthorityKeyIdentifierMismatch)));
}

#[test]
fn authority_serial_mismatch_is_rejected() {
    let anchor = build(root(R));
    let bad = AuthorityKeyIdentifier {
        key_identifier: None,
        authority_cert_issuer: None,
        authority_cert_serial_number: Some(SerialNumber::new(&[7]).unwrap()),
    };
    let mut l = leaf(L, I);
    l.extensions.push(ext(bad, false));
    let chain = chain_of(vec![build(intermediate(I, R))], build(l));
    let r = chain.validate_path_at(&anchor, NOW);
    assert!(is_rule(&r, |e| matches!(e, CertError::AuthorityKeyIdentifierMismatch)));
}

#[test]
fn authority_key_identifier_without_subject_key_identifier_is_skipped() {
    let anchor = build(root(R));
    let aki = AuthorityKeyIdentifier {
        key_identifier: Some(OctetString::new(vec![9, 9]).unwrap()),
        authority_cert_issuer: None,
        authority_cert_serial_number: Some(SerialNumber::new(&[2]).unwrap()),
    };
    let mut l = leaf(L, I);
    l.extensions.push(ext(aki, false));
    let chain = chain_of(vec![build(intermediate(I, R))], build(l));
    assert!(chain.validate_path_at(&anchor, NOW).is_ok());
}

#[test]
fn algorithm_mismatch_is_reported_before_cryptography() {
    let issuer = build(root(R));
    let mut s = leaf(L, R);
    s.issuer = "CN=Root";
    s.signature_algorithm = Some(AlgorithmIdentifierOwned { oid: ECDSA_SHA256, parameters: None });
    let subject = build(s);
    let r = issuer.verify_signature(&subject);
    assert!(is_rule(&r, |e| matches!(e, CertError::AlgorithmMismatch)));
}

#[test]
fn algorithm_parameters_take_part_in_the_match() {
    let issuer = build(root(R));
    let mut s = leaf(L, R);
    s.signature_algorithm = Some(AlgorithmIdentifierOwned {
        oid: ED25519,
        parameters: Some(Any::new(Tag::Null, Vec::new()).unwrap()),
    });
    let subject = build(s);
    let r = issuer.verify_signature(&subject);
    assert!(is_rule(&r, |e| matches!(e, CertError::AlgorithmMismatch)));
}

#[test]
fn unsupported_algorithm_is_rejected() {
    let rsa = AlgorithmIdentifierOwned {
        oid: ObjectIdentifier::new_unwrap("1.2.840.113549.1.1.11"),
        parameters: None,
    };
    let mut a = root(R);
    a.signature_algorithm = Some(rsa.clone());
    let anchor_der = der_of(a);
    let anchor = Certificate::from_der(&anchor_der).unwrap();
    let mut s = leaf(L, R);
    s.signature_algorithm = Some(rsa);
    let subject = build(s);
    // the anchor's key algorithm is Ed25519, the subject's signature RSA
    assert!(is_rule(&anchor.verify_signature(&subject), |e| matches!(e, CertError::AlgorithmMismatch)));
    assert_eq!(scheme_of_oid(&[0x2a, 0x86, 0x48, 0x86, 0xf7, 0x0d, 0x01, 0x01, 0x0b]), None);
}

#[test]
fn signature_verifies_over_tbs() {
    let issuer = build(root(R));
    let subject = build(intermediate(I, R));
    assert!(issuer.verify_signature(&subject).is_ok());
    assert!(matches!(
        subject.verify_signature(&issuer),
        Err(Error::Certificate(CertError::IssuerSubjectMismatch)) | Err(Error::Signature(SigError::VerificationFailed))
    ));
}

#[test]
fn ecdsa_p256_chain_validates() {
    let r = Key::P256(1);
    let i = Key::P256(2);
    let anchor = build(root(r));
    let chain = chain_of(vec![build(intermediate(i, r))], build(leaf(Key::P256(3), i)));
    assert!(chain.validate_path_at(&anchor, NOW).is_ok());
    let forged = chain_of(vec![build(intermediate(i, r))], build(leaf(Key::P256(3), Key::P256(4))));
    assert!(matches!(
        forged.validate_path_at(&anchor, NOW),
        Err(Error::Signature(SigError::VerificationFailed))
    ));
}

#[test]
fn ecdsa_p384_chain_validates() {
    let r = Key::P384(1);
    let i = Key::P384(2);
    let anchor = build(root(r));
    let chain = chain_of(vec![build(intermediate(i, r))], build(leaf(Key::P384(3), i)));
    assert!(chain.validate_path_at(&anchor, NOW).is_ok());
    let forged = chain_of(vec![build(intermediate(i, r))], build(leaf(Key::P384(3), Key::P384(4))));
    assert!(matches!(
        forged.validate_path_at(&anchor, NOW),
        Err(Error::Signature(SigError::VerificationFailed))
    ));
}

#[test]
fn signature_verifier_checks_data() {
    let key = Key::Ed(5);
    let v = SignatureVerifier::new(Scheme::Ed25519, key.public());
    let sig = key.sign(b"hello");
    assert!(v.verify(b"hello", &sig).is_ok());
    assert!(matches!(v.verify(b"hellp", &sig), Err(Error::Signature(SigError::VerificationFailed))));
    assert!(matches!(v.verify(b"hello", &sig[..10]), Err(Error::Signature(SigError::SignatureMalformed))));
    let c = build(intermediate(I, key));
    assert!(v.verify_certificate(&c).is_ok());
}

#[test]
fn der_round_trip_is_stable() {
    let der = der_of(leaf(L, I));
    let c = Certificate::from_der(&der).unwrap();
    let again = c.to_der().unwrap();
    assert_eq!(again, der);
    let d = Certificate::from_der(&again).unwrap();
    assert_eq!(d.to_der().unwrap(), again);
    assert_eq!(d.subject(), c.subject());
    assert_eq!(d.issuer(), c.issuer());
    assert_eq!(d.serial_bytes(), c.serial_bytes());
    assert_eq!(d.extensions().len(), c.extensions().len());
}

#[test]
fn pem_round_trip() {
    let c = build(leaf(L, I));
    let pem = c.to_pem().unwrap();
    assert!(pem.starts_with("-----BEGIN CERTIFICATE-----\n"));
    assert!(!pem.contains('\r'));
    let d = Certificate::from_pem(pem.as_bytes()).unwrap();
    assert_eq!(d.to_der().unwrap(), c.to_der().unwrap());
}

#[test]
fn malformed_der_is_rejected() {
    assert!(matches!(Certificate::from_der(&[0x30, 0x03, 0x02, 0x01]), Err(Error::Asn1(_))));
    assert!(matches!(Certificate::from_pem(b"not a certificate"), Err(Error::Asn1(_))));
}

#[test]
fn accessors_report_fields() {
    let c = build(leaf(L, I));
    assert_eq!(c.subject(), "CN=Leaf");
    assert_eq!(c.issuer(), "CN=Intermediate");
    assert_eq!(c.serial_bytes(), &[3u8][..]);
    assert_eq!(c.serial_string(), "03");
    assert_eq!(c.public_key_bytes().unwrap(), &L.public()[..]);
    assert_eq!(c.validity().not_before, START);
    assert_eq!(c.validity().not_after, END);
    let f1 = c.fingerprint_base64().unwrap();
    let f2 = build(leaf(Key::Ed(4), I)).fingerprint_base64().unwrap();
    assert_eq!(f1.len(), 44);
    assert_ne!(f1, f2);
}

#[test]
fn typed_extension_getters() {
    let mut s = intermediate(I, R);
    s.extensions.push(bc(false, Some(3)));
    s.extensions.push(ext(SubjectKeyIdentifier(OctetString::new(vec![4, 5]).unwrap()), false));
    let c = build(s);
    let b = c.get_basic_constraints().unwrap();
    assert!(b.ca);
    assert_eq!(b.path_len_constraint, None);
    assert_eq!(c.get_key_usage().unwrap().0, 0x20 | 0x40);
    assert_eq!(c.get_subject_key_identifier().unwrap().0, vec![4, 5]);
    assert!(c.get_authority_key_identifier().is_none());
    assert!(c.get_extended_key_usage().is_none());
    assert!(c.get_subject_alt_name().is_none());
    assert!(c.get_certificate_policies().is_none());
    assert_eq!(c.extensions().len(), 4);
}

#[test]
fn unsupported_critical_extension_fails_decoding() {
    let mut s = leaf(L, I);
    s.extensions.push(raw_ext("1.2.3.4", true, &[0x05, 0x00]));
    match Certificate::from_der(&der_of(s)) {
        Err(Error::Certificate(CertError::UnsupportedExtension(oid))) => {
            assert_eq!(oid, vec![0x2a, 0x03, 0x04]);
        }
        _ => panic!("expected an unsupported extension"),
    }
}

#[test]
fn unsupported_noncritical_extension_is_dropped() {
    let mut s = leaf(L, I);
    s.extensions.push(raw_ext("1.2.3.4", false, &[0x05, 0x00]));
    let c = build(s);
    assert_eq!(c.extensions().len(), 2);
}

#[test]
fn malformed_recognized_extension_is_fatal() {
    let mut s = leaf(L, I);
    s.extensions = vec![raw_ext("2.5.29.19", false, &[0xff])];
    assert!(matches!(Certificate::from_der(&der_of(s)), Err(Error::Asn1(_))));
}

#[test]
fn parse_extensions_keeps_order_and_fails_closed() {
    let bc_payload = BasicConstraints { ca: true, path_len_constraint: Some(2) }.to_der().unwrap();
    let ku_payload = KeyUsage(KeyUsages::KeyCertSign.into()).to_der().unwrap();
    let raw = vec![
        RawExtension { oid: vec![0x55, 0x1d, 0x0f], critical: true, value: ku_payload },
        RawExtension { oid: vec![0x2a, 0x03], critical: false, value: vec![] },
        RawExtension { oid: vec![0x55, 0x1d, 0x13], critical: true, value: bc_payload.clone() },
    ];
    let parsed = parse_extensions(&raw).unwrap();
    assert_eq!(parsed.len(), 2);
    assert!(matches!(parsed[0], Extension::KeyUsage(k) if k.0 == 0x20));
    assert!(matches!(parsed[1], Extension::BasicConstraints(b) if b.ca && b.path_len_constraint == Some(2)));
    let raw = vec![
        RawExtension { oid: vec![0x2a, 0x03], critical: true, value: vec![] },
        RawExtension { oid: vec![0x55, 0x1d, 0x13], critical: true, value: vec![0xff] },
    ];
    assert!(matches!(
        parse_extensions(&raw),
        Err(Error::Certificate(CertError::UnsupportedExtension(ref o))) if o == &vec![0x2a, 0x03]
    ));
    assert!(parse_extensions(&[]).unwrap().is_empty());
}

#[test]
fn oid_lookups() {
    assert_eq!(kind_of_oid(&[0x55, 0x1d, 0x13]), Some(ExtensionKind::BasicConstraints));
    assert_eq!(kind_of_oid(&[0x55, 0x1d, 0x0f]), Some(ExtensionKind::KeyUsage));
    assert_eq!(kind_of_oid(&[0x55, 0x1d, 0x25]), Some(ExtensionKind::ExtendedKeyUsage));
    assert_eq!(kind_of_oid(&[0x55, 0x1d, 0x11]), Some(ExtensionKind::SubjectAlternativeName));
    assert_eq!(kind_of_oid(&[0x55, 0x1d, 0x23]), Some(ExtensionKind::AuthorityKeyIdentifier));
    assert_eq!(kind_of_oid(&[0x55, 0x1d, 0x0e]), Some(ExtensionKind::SubjectKeyIdentifier));
    assert_eq!(kind_of_oid(&[0x55, 0x1d, 0x20]), Some(ExtensionKind::CertificatePolicies));
    assert_eq!(kind_of_oid(&[0x55, 0x1d, 0x1f]), None);
    assert_eq!(kind_of_oid(&[]), None);
    assert_eq!(scheme_of_oid(ED25519.as_bytes()), Some(Scheme::Ed25519));
    assert_eq!(scheme_of_oid(ECDSA_SHA256.as_bytes()), Some(Scheme::EcdsaP256Sha256));
    assert_eq!(scheme_of_oid(ECDSA_SHA384.as_bytes()), Some(Scheme::EcdsaP384Sha384));
}

#[test]
fn builder_keeps_intermediate_order() {
    let a = build(intermediate(I, R));
    let mut b_spec = spec("CN=Second", "CN=Intermediate", Key::Ed(6), I);
    b_spec.extensions = ca_exts();
    let b = build(b_spec);
    let chain = CertificateChainBuilder::default()
        .set_leaf(build(leaf(L, I)))
        .set_intermediates(vec![a])
        .add_intermediates(vec![b])
        .build()
        .unwrap();
    assert_eq!(chain.intermediates().len(), 2);
    assert_eq!(chain.intermediates()[0].subject(), "CN=Intermediate");
    assert_eq!(chain.intermediates()[1].subject(), "CN=Second");
    assert_eq!(chain.leaf().subject(), "CN=Leaf");
    let members = chain.iter();
    assert_eq!(members.len(), 3);
    assert_eq!(members[2].subject(), "CN=Leaf");
}

#[test]
fn chain_without_intermediates_validates() {
    let anchor = build(root(R));
    let mut l = leaf(L, R);
    l.issuer = "CN=Root";
    let chain = chain_of(Vec::new(), build(l));
    assert!(chain.validate_path_at(&anchor, NOW).is_ok());
}

#[test]
fn malformed_key_and_signature_are_told_apart() {
    let short = SignatureVerifier::new(Scheme::Ed25519, vec![1u8; 31]);
    let sig = Key::Ed(5).sign(b"hello");
    assert!(matches!(short.verify(b"hello", &sig), Err(Error::Signature(SigError::KeyMalformed))));
    let bad_point = SignatureVerifier::new(Scheme::EcdsaP256Sha256, vec![4u8; 65]);
    assert!(matches!(bad_point.verify(b"hello", &[0x30, 0x00]), Err(Error::Signature(SigError::KeyMalformed))));
    let p = Key::P256(1);
    let v = SignatureVerifier::new(Scheme::EcdsaP256Sha256, p.public());
    assert!(matches!(v.verify(b"hello", &[0x01, 0x02]), Err(Error::Signature(SigError::SignatureMalformed))));
    assert!(v.verify(b"hello", &p.sign(b"hello")).is_ok());
    let q = Key::P384(1);
    let w = SignatureVerifier::new(Scheme::EcdsaP384Sha384, q.public());
    assert!(matches!(w.verify(b"hello", &[0x01]), Err(Error::Signature(SigError::SignatureMalformed))));
    assert!(matches!(w.verify(b"hellp", &q.sign(b"hello")), Err(Error::Signature(SigError::VerificationFailed))));
}

#[test]
fn fingerprint_depends_on_key_info_only() {
    let a = build(leaf(L, I));
    let mut other = spec("CN=Other", "CN=Elsewhere", L, R);
    other.serial = 9;
    let b = build(other);
    assert_eq!(a.spki_bytes(), b.spki_bytes());
    assert_eq!(a.fingerprint_base64().unwrap(), b.fingerprint_base64().unwrap());
    assert_ne!(a.to_der().unwrap(), b.to_der().unwrap());
}

#[test]
fn key_bits_not_whole_bytes_are_malformed() {
    let mut s = intermediate(I, R);
    s.key_unused_bits = 1;
    let issuer = build(s);
    assert!(matches!(
        issuer.public_key_bytes(),
        Err(Error::Spki(spki::Error::KeyMalformed))
    ));
    let mut l = leaf(L, I);
    l.issuer = "CN=Intermediate";
    let subject = build(l);
    assert!(matches!(
        issuer.verify_signature(&subject),
        Err(Error::Signature(SigError::KeyMalformed))
    ));
}
