//! Temporal validity and trust-path validation.
use vstd::prelude::*;

use super::extension::{
    first_of, AuthorityKeyIdentifier, BasicConstraints, Extension, ExtensionKind, KeyUsage,
    SubjectKeyIdentifier, KEY_CERT_SIGN,
};
use super::verify::signature_outcome;
use super::{views, Certificate, CertificateChain, CertificateView, Error};

verus! {

/// Relies on `std::time::SystemTime::now`: the current time in whole seconds
/// since the Unix epoch (0 for a clock set before it). Nothing is promised
/// of the value.
#[verifier::external_body]
fn now_unix() -> (r: u64) {
    std::time::SystemTime::now().duration_since(std::time::UNIX_EPOCH).map(|d| d.as_secs()).unwrap_or(0)
}

/// The error for a broken rule of certificate validation.
pub open spec fn rule(e: Error) -> crate::error::Error {
    crate::error::Error::Certificate(e)
}

/// A certificate's temporal validity at `now`.
pub open spec fn period_outcome(c: CertificateView, now: u64) -> crate::Result<()> {
    if now < c.validity.not_before {
        Err(rule(Error::CertificateImmature))
    } else if now > c.validity.not_after {
        Err(rule(Error::CertificateExpired))
    } else {
        Ok(())
    }
}

/// The first BasicConstraints of a certificate.
pub open spec fn basic_constraints_of(c: CertificateView) -> Option<BasicConstraints> {
    match first_of(c.extensions, ExtensionKind::BasicConstraints) {
        Some(Extension::BasicConstraints(v)) => Some(v),
        _ => None,
    }
}

/// The first KeyUsage of a certificate.
pub open spec fn key_usage_of(c: CertificateView) -> Option<KeyUsage> {
    match first_of(c.extensions, ExtensionKind::KeyUsage) {
        Some(Extension::KeyUsage(v)) => Some(v),
        _ => None,
    }
}

/// The first AuthorityKeyIdentifier of a certificate.
pub open spec fn authority_key_identifier_of(c: CertificateView) -> Option<AuthorityKeyIdentifier> {
    match first_of(c.extensions, ExtensionKind::AuthorityKeyIdentifier) {
        Some(Extension::AuthorityKeyIdentifier(v)) => Some(v),
        _ => None,
    }
}

/// The first SubjectKeyIdentifier of a certificate.
pub open spec fn subject_key_identifier_of(c: CertificateView) -> Option<SubjectKeyIdentifier> {
    match first_of(c.extensions, ExtensionKind::SubjectKeyIdentifier) {
        Some(Extension::SubjectKeyIdentifier(v)) => Some(v),
        _ => None,
    }
}

/// Whether a signer may act as a CA: BasicConstraints present with ca set.
pub open spec fn is_ca(c: CertificateView) -> bool {
    basic_constraints_of(c) matches Some(bc) && bc.ca
}

/// Whether a signer's KeyUsage, when present, forbids signing certificates.
pub open spec fn key_usage_forbids(c: CertificateView) -> bool {
    key_usage_of(c) matches Some(ku) && ku.0 & KEY_CERT_SIGN == 0
}

/// Whether `subject`'s AuthorityKeyIdentifier contradicts `issuer`: its key
/// identifier against the issuer's SubjectKeyIdentifier, or its serial number
/// against the issuer's, each only where both sides are present.
pub open spec fn key_identifier_mismatch(issuer: CertificateView, subject: CertificateView) -> bool {
    match authority_key_identifier_of(subject) {
        Some(aki) => {
            (aki.key_identifier matches Some(k) && subject_key_identifier_of(issuer) matches Some(ski)
                && k@ != ski.0@) || (aki.authority_cert_serial_number matches Some(sn) && sn@
                != issuer.serial)
        },
        None => false,
    }
}

/// The checks of one issuer on the certificate it issued, in order.
pub open spec fn link_outcome(issuer: CertificateView, subject: CertificateView) -> crate::Result<()> {
    if !is_ca(issuer) {
        Err(rule(Error::BasicConstraintsViolation))
    } else if key_usage_forbids(issuer) {
        Err(rule(Error::KeyUsageViolation))
    } else if issuer.subject != subject.issuer {
        Err(rule(Error::IssuerSubjectMismatch))
    } else if key_identifier_mismatch(issuer, subject) {
        Err(rule(Error::AuthorityKeyIdentifierMismatch))
    } else {
        signature_outcome(issuer, subject)
    }
}

/// The node at `i`: its period, then its checks on the next node, if any.
pub open spec fn step_outcome(nodes: Seq<CertificateView>, now: u64, i: int) -> crate::Result<()> {
    match period_outcome(nodes[i], now) {
        Err(e) => Err(e),
        Ok(_) => if i + 1 < nodes.len() {
            link_outcome(nodes[i], nodes[i + 1])
        } else {
            Ok(())
        },
    }
}

/// The walk from node `i` to the end: the first failing step's error.
pub open spec fn walk_from(nodes: Seq<CertificateView>, now: u64, i: int) -> crate::Result<()>
    decreases nodes.len() - i,
{
    if i < 0 || i >= nodes.len() {
        Ok(())
    } else {
        match step_outcome(nodes, now, i) {
            Err(e) => Err(e),
            Ok(_) => walk_from(nodes, now, i + 1),
        }
    }
}

/// Whether node `i`'s path length constraint, if any, admits the CA
/// certificates that follow it: the nodes after it but the last.
pub open spec fn path_len_admits(nodes: Seq<CertificateView>, i: int) -> bool {
    match basic_constraints_of(nodes[i]) {
        Some(bc) => match bc.path_len_constraint {
            Some(c) => nodes.len() - 2 - i <= c,
            None => true,
        },
        None => true,
    }
}

/// The outcome of validating the path `nodes` (trust anchor first, leaf
/// last) at `now`: the walk, then the path length constraints.
pub open spec fn path_outcome(nodes: Seq<CertificateView>, now: u64) -> crate::Result<()> {
    match walk_from(nodes, now, 0) {
        Err(e) => Err(e),
        Ok(_) => if forall|i: int| 0 <= i < nodes.len() - 1 ==> #[trigger] path_len_admits(nodes, i) {
            Ok(())
        } else {
            Err(rule(Error::BasicConstraintsViolation))
        },
    }
}

/// The first failure among the periods of `certs`, in order.
pub open spec fn periods_from(certs: Seq<CertificateView>, now: u64, i: int) -> crate::Result<()>
    decreases certs.len() - i,
{
    if i < 0 || i >= certs.len() {
        Ok(())
    } else {
        match period_outcome(certs[i], now) {
            Err(e) => Err(e),
            Ok(_) => periods_from(certs, now, i + 1),
        }
    }
}

impl Certificate {
    /// Checks the validity window at `now` (seconds since the Unix epoch):
    /// `CertificateImmature` before notBefore, `CertificateExpired` after
    /// notAfter.
    pub fn validate_period_at(&self, now: u64) -> (r: crate::Result<()>)
        ensures
            r == period_outcome(self@, now),
    {
        let v = self.validity();
        if now < v.not_before {
            return Err(crate::error::Error::Certificate(Error::CertificateImmature));
        }
        if now > v.not_after {
            return Err(crate::error::Error::Certificate(Error::CertificateExpired));
        }
        Ok(())
    }

    /// Checks the validity window at the current time.
    pub fn validate_period(&self) -> (r: crate::Result<()>)
        ensures
            exists|now: u64| r == period_outcome(self@, now),
    {
        self.validate_period_at(now_unix())
    }

    /// Whether this certificate is a CA (BasicConstraints with ca set).
    fn check_ca(&self) -> (r: bool)
        ensures
            r == is_ca(self@),
    {
        match self.get_basic_constraints() {
            Some(bc) => bc.ca,
            None => false,
        }
    }

    /// Whether this certificate's KeyUsage forbids signing certificates.
    fn check_key_usage_forbids(&self) -> (r: bool)
        ensures
            r == key_usage_forbids(self@),
    {
        match self.get_key_usage() {
            Some(ku) => ku.0 & KEY_CERT_SIGN == 0,
            None => false,
        }
    }

    /// Whether `next`'s AuthorityKeyIdentifier contradicts this certificate.
    fn check_key_identifier_mismatch(&self, next: &Certificate) -> (r: bool)
        ensures
            r == key_identifier_mismatch(self@, next@),
    {
        match next.get_authority_key_identifier() {
            Some(aki) => {
                let key_id_bad = match (&aki.key_identifier, self.get_subject_key_identifier()) {
                    (Some(k), Some(ski)) => !crate::bytes::bytes_eq(k.as_slice(), ski.0.as_slice()),
                    _ => false,
                };
                let serial_bad = match &aki.authority_cert_serial_number {
                    Some(sn) => !crate::bytes::bytes_eq(sn.as_slice(), self.serial_bytes()),
                    None => false,
                };
                key_id_bad || serial_bad
            },
            None => false,
        }
    }

    /// The checks of this certificate, as issuer, on `next`, in order.
    pub fn validate_link(&self, next: &Certificate) -> (r: crate::Result<()>)
        ensures
            r == link_outcome(self@, next@),
    {
        if !self.check_ca() {
            return Err(crate::error::Error::Certificate(Error::BasicConstraintsViolation));
        }
        if self.check_key_usage_forbids() {
            return Err(crate::error::Error::Certificate(Error::KeyUsageViolation));
        }
        if !crate::bytes::bytes_eq(self.subject_der(), next.issuer_der()) {
            return Err(crate::error::Error::Certificate(Error::IssuerSubjectMismatch));
        }
        if self.check_key_identifier_mismatch(next) {
            return Err(crate::error::Error::Certificate(Error::AuthorityKeyIdentifierMismatch));
        }
        self.verify_signature(next)
    }
}

/// The path that `validate_path` walks: the trust anchor, then the chain.
pub open spec fn path_of(trust_anchor: CertificateView, chain: Seq<CertificateView>) -> Seq<CertificateView> {
    seq![trust_anchor] + chain
}

/// The order in which a chain's periods are checked: the leaf, then the
/// intermediates.
pub open spec fn period_order(chain: Seq<CertificateView>) -> Seq<CertificateView> {
    seq![chain.last()] + chain.drop_last()
}

impl CertificateChain {
    /// The node at `i` of the path from `anchor` through this chain.
    fn node<'a>(&'a self, anchor: &'a Certificate, i: usize) -> (r: &'a Certificate)
        requires
            i < self@.len() + 1,
        ensures
            r@ == path_of(anchor@, self@)[i as int],
    {
        if i == 0 {
            anchor
        } else {
            let ints = self.intermediates();
            if i - 1 < ints.len() {
                let c = &ints[i - 1];
                assert(views(ints@)[i - 1] == c@);
                c
            } else {
                self.leaf()
            }
        }
    }

    /// The node after the one at `i` on the path from any anchor: the
    /// chain's member at `i`.
    fn successor(&self, i: usize) -> (r: &Certificate)
        requires
            i < self@.len(),
        ensures
            r@ == self@[i as int],
    {
        let ints = self.intermediates();
        if i < ints.len() {
            let c = &ints[i];
            assert(views(ints@)[i as int] == c@);
            c
        } else {
            self.leaf()
        }
    }

    /// Checks the periods of the leaf and of every intermediate at `now`;
    /// the first failure, in that order, is returned.
    pub fn validate_period_at(&self, now: u64) -> (r: crate::Result<()>)
        ensures
            r == periods_from(period_order(self@), now, 0),
    {
        let ghost certs = period_order(self@);
        let ints = self.intermediates();
        match self.leaf().validate_period_at(now) {
            Ok(_) => {},
            Err(e) => return Err(e),
        }
        let mut i: usize = 0;
        while i < ints.len()
            invariant
                certs == period_order(self@),
                views(ints@) == self@.drop_last(),
                self@.len() == ints@.len() + 1,
                i <= ints@.len(),
                periods_from(certs, now, 0) == periods_from(certs, now, i + 1),
            decreases ints@.len() - i,
        {
            assert(certs[i + 1] == ints@[i as int]@);
            match ints[i].validate_period_at(now) {
                Ok(_) => {},
                Err(e) => return Err(e),
            }
            i = i + 1;
        }
        Ok(())
    }

    /// Checks the periods of the leaf and of every intermediate at the
    /// current time.
    pub fn validate_period(&self) -> (r: crate::Result<()>)
        ensures
            exists|now: u64| r == periods_from(period_order(self@), now, 0),
    {
        self.validate_period_at(now_unix())
    }

    /// Validates the path from `trust_anchor` through this chain at `now`:
    /// every node's period, each issuer's checks on the next node, in order,
    /// then every path length constraint; the first failure is returned.
    pub fn validate_path_at(&self, trust_anchor: &Certificate, now: u64) -> (r: crate::Result<()>)
        ensures
            r == path_outcome(path_of(trust_anchor@, self@), now),
    {
        let ghost nodes = path_of(trust_anchor@, self@);
        let m = self.intermediates().len();
        let mut constraints: Vec<Option<u8>> = Vec::new();
        let mut i: usize = 0;
        loop
            invariant_except_break
                constraints@.len() == i,
                forall|j: int| 0 <= j < i ==> is_ca(#[trigger] nodes[j]) && constraints@[j] == basic_constraints_of(nodes[j])->Some_0.path_len_constraint,
            invariant
                nodes == path_of(trust_anchor@, self@),
                nodes.len() == m + 2,
                i <= m,
                walk_from(nodes, now, 0) == walk_from(nodes, now, i as int),
            ensures
                i == m,
                walk_from(nodes, now, 0) == walk_from(nodes, now, m + 1),
                constraints@.len() == m + 1,
                forall|j: int| 0 <= j < m + 1 ==> is_ca(#[trigger] nodes[j]) && constraints@[j] == basic_constraints_of(nodes[j])->Some_0.path_len_constraint,
            decreases m - i,
        {
            let current = self.node(trust_anchor, i);
            let next = self.successor(i);
            match current.validate_period_at(now) {
                Ok(_) => {},
                Err(e) => return Err(e),
            }
            match current.validate_link(next) {
                Ok(_) => {},
                Err(e) => return Err(e),
            }
            let c = match current.get_basic_constraints() {
                Some(bc) => bc.path_len_constraint,
                None => None,
            };
            constraints.push(c);
            if i == m {
                break;
            }
            i = i + 1;
        }
        let leaf = self.leaf();
        assert(nodes[m + 1] == self@.last());
        match leaf.validate_period_at(now) {
            Ok(_) => {},
            Err(e) => return Err(e),
        }
        assert(walk_from(nodes, now, m + 2) == Ok::<(), crate::error::Error>(()));
        let mut j: usize = 0;
        while j < constraints.len()
            invariant
                nodes == path_of(trust_anchor@, self@),
                nodes.len() == m + 2,
                constraints@.len() == m + 1,
                walk_from(nodes, now, 0) == Ok::<(), crate::error::Error>(()),
                j <= constraints@.len(),
                forall|k: int| 0 <= k < m + 1 ==> is_ca(#[trigger] nodes[k]) && constraints@[k] == basic_constraints_of(nodes[k])->Some_0.path_len_constraint,
                forall|k: int| 0 <= k < j ==> #[trigger] path_len_admits(nodes, k),
            decreases constraints@.len() - j,
        {
            match constraints[j] {
                Some(c) => {
                    if m - j > c as usize {
                        assert(!path_len_admits(nodes, j as int));
                        return Err(crate::error::Error::Certificate(Error::BasicConstraintsViolation));
                    }
                },
                None => {},
            }
            assert(path_len_admits(nodes, j as int));
            j = j + 1;
        }
        Ok(())
    }

    /// Validates the path from `trust_anchor` through this chain at the
    /// current time.
    pub fn validate_path(&self, trust_anchor: &Certificate) -> (r: crate::Result<()>)
        ensures
            exists|now: u64| r == path_outcome(path_of(trust_anchor@, self@), now),
    {
        self.validate_path_at(trust_anchor, now_unix())
    }
}

} // verus!
