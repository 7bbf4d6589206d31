//! Laws of path validation, proved over the outcome that
//! `CertificateChain::validate_path_at` returns.
use vstd::prelude::*;

use super::validate::{
    is_ca, key_usage_forbids, link_outcome, path_len_admits, path_outcome, period_outcome,
    step_outcome, walk_from, basic_constraints_of, rule,
};
use super::verify::signature_outcome;
use super::codec::spki_fingerprint;
use super::{decoded, CertificateView, Error};

verus! {

/// When every step before `k` passes, the walk's outcome is that of the walk
/// from `k`.
pub proof fn lemma_walk_skips_passed_steps(nodes: Seq<CertificateView>, now: u64, k: int)
    requires
        0 <= k <= nodes.len(),
        forall|j: int| 0 <= j < k ==> (#[trigger] step_outcome(nodes, now, j)) is Ok,
    ensures
        walk_from(nodes, now, 0) == walk_from(nodes, now, k),
    decreases k,
{
    if k > 0 {
        lemma_walk_skips_passed_steps(nodes, now, k - 1);
        assert(step_outcome(nodes, now, k - 1) is Ok);
    }
}

/// A signer on the path that is not a CA makes validation fail with
/// `BasicConstraintsViolation`, once the steps before it have passed.
pub proof fn lemma_non_ca_signer_rejected(nodes: Seq<CertificateView>, now: u64, k: int)
    requires
        0 <= k < nodes.len() - 1,
        !is_ca(nodes[k]),
        forall|j: int| 0 <= j < k ==> (#[trigger] step_outcome(nodes, now, j)) is Ok,
        period_outcome(nodes[k], now) is Ok,
    ensures
        path_outcome(nodes, now) == Err::<(), _>(rule(Error::BasicConstraintsViolation)),
{
    lemma_walk_skips_passed_steps(nodes, now, k);
    assert(link_outcome(nodes[k], nodes[k + 1]) == Err::<(), _>(rule(Error::BasicConstraintsViolation)));
}

/// A signer whose subject name differs from the next node's issuer name
/// makes validation fail with `IssuerSubjectMismatch`, once the steps
/// before it, its period, its CA flag and its key usage have passed.
pub proof fn lemma_name_mismatch_rejected(nodes: Seq<CertificateView>, now: u64, k: int)
    requires
        0 <= k < nodes.len() - 1,
        nodes[k].subject != nodes[k + 1].issuer,
        forall|j: int| 0 <= j < k ==> (#[trigger] step_outcome(nodes, now, j)) is Ok,
        period_outcome(nodes[k], now) is Ok,
        is_ca(nodes[k]),
        !key_usage_forbids(nodes[k]),
    ensures
        path_outcome(nodes, now) == Err::<(), _>(rule(Error::IssuerSubjectMismatch)),
{
    lemma_walk_skips_passed_steps(nodes, now, k);
}

/// A CA with path length constraint 0 followed by another CA, not by the
/// leaf, makes validation fail with `BasicConstraintsViolation`, once every
/// step of the walk has passed.
pub proof fn lemma_path_len_zero_rejected(nodes: Seq<CertificateView>, now: u64, k: int)
    requires
        0 <= k < nodes.len() - 2,
        basic_constraints_of(nodes[k]) matches Some(bc) && bc.path_len_constraint == Some(0u8),
        walk_from(nodes, now, 0) is Ok,
    ensures
        path_outcome(nodes, now) == Err::<(), _>(rule(Error::BasicConstraintsViolation)),
{
    assert(!path_len_admits(nodes, k));
}

/// Differing algorithms of issuer key and subject signature fail with
/// `AlgorithmMismatch`, whatever the keys and signatures hold: no
/// cryptographic verdict enters the outcome.
pub proof fn lemma_algorithm_mismatch_rejected(issuer: CertificateView, subject: CertificateView)
    requires
        issuer.key_algorithm != subject.signature_algorithm,
    ensures
        signature_outcome(issuer, subject) == Err::<(), _>(rule(Error::AlgorithmMismatch)),
{
}

/// Two decoded certificates with the same canonical encoding are the same
/// certificate: what `to_der` returns determines every part of it.
pub proof fn lemma_canonical_encoding_determines_certificate(a: CertificateView, b: CertificateView)
    requires
        decoded(a.der) == Some(a),
        decoded(b.der) == Some(b),
        a.der == b.der,
    ensures
        a == b,
{
}

/// Two certificates with the same subject public key info have the same
/// fingerprint outcome: `fingerprint_base64` depends on that info alone.
pub proof fn lemma_fingerprint_depends_on_key_info_alone(a: CertificateView, b: CertificateView)
    requires
        a.spki == b.spki,
    ensures
        spki_fingerprint(a.spki) == spki_fingerprint(b.spki),
{
}

} // verus!
