//! The conflict potential of two entities: a record of how far their
//! worldviews are apart.

use vstd::prelude::*;
use crate::error::{DivergenceError, check_dimensions};
use crate::risk::RiskLevel;
use crate::scalar::Scalar;
use crate::scheme::CompressionScheme;

verus! {

/// The divergence measures of two distributions `p` and `q`.
#[derive(Clone, Copy, Debug)]
pub struct DivergenceMetrics {
    pub kl_p_q: Scalar,
    pub kl_q_p: Scalar,
    pub symmetric_kl: Scalar,
    pub jensen_shannon: Scalar,
    pub hellinger: Scalar,
    pub bhattacharyya: Scalar,
    pub cosine: Scalar,
}

impl DivergenceMetrics {
    /// The measures of `q` and `p`: the two directed ones change places.
    pub open spec fn reversed(self) -> DivergenceMetrics {
        DivergenceMetrics { kl_p_q: self.kl_q_p, kl_q_p: self.kl_p_q, ..self }
    }

    /// Swaps the two directions.
    pub fn reverse(self) -> (r: DivergenceMetrics)
        ensures
            r == self.reversed(),
    {
        DivergenceMetrics {
            kl_p_q: self.kl_q_p,
            kl_q_p: self.kl_p_q,
            symmetric_kl: self.symmetric_kl,
            jensen_shannon: self.jensen_shannon,
            hellinger: self.hellinger,
            bhattacharyya: self.bhattacharyya,
            cosine: self.cosine,
        }
    }
}

/// A snapshot of the divergence of two entities.
#[derive(Debug)]
pub struct ConflictPotential {
    pub actor_a: String,
    pub actor_b: String,
    /// Symmetric divergence: the conflict potential.
    pub phi: Scalar,
    /// Jensen-Shannon divergence.
    pub js: Scalar,
    /// Hellinger distance.
    pub hellinger: Scalar,
    /// Divergence of `actor_a` from `actor_b`.
    pub kl_a_b: Scalar,
    /// Divergence of `actor_b` from `actor_a`.
    pub kl_b_a: Scalar,
    pub timestamp_ms: Option<i64>,
}

impl ConflictPotential {
    /// The record holds `metrics` for the entities `a` and `b`.
    pub open spec fn holds(&self, a: Seq<char>, b: Seq<char>, metrics: DivergenceMetrics) -> bool {
        &&& self.actor_a@ == a
        &&& self.actor_b@ == b
        &&& self.phi == metrics.symmetric_kl
        &&& self.js == metrics.jensen_shannon
        &&& self.hellinger == metrics.hellinger
        &&& self.kl_a_b == metrics.kl_p_q
        &&& self.kl_b_a == metrics.kl_q_p
    }

    /// The entity whose worldview the other finds the more surprising.
    pub open spec fn diverger(&self) -> Seq<char> {
        if self.kl_b_a.gt(self.kl_a_b) {
            self.actor_a@
        } else {
            self.actor_b@
        }
    }

    /// The record of two schemes from their measures, `p` being the
    /// first scheme. Schemes of two lengths have no potential.
    pub fn compute(
        scheme_a: &CompressionScheme,
        scheme_b: &CompressionScheme,
        metrics: DivergenceMetrics,
    ) -> (r: Result<ConflictPotential, DivergenceError>)
        ensures
            scheme_a.weights().len() != scheme_b.weights().len() ==> r == Err::<
                ConflictPotential,
                DivergenceError,
            >(
                DivergenceError::DimensionMismatch {
                    expected: scheme_a.weights().len() as usize,
                    got: scheme_b.weights().len() as usize,
                },
            ),
            scheme_a.weights().len() == scheme_b.weights().len() ==> r is Ok && r->Ok_0.holds(
                scheme_a.actor_id@,
                scheme_b.actor_id@,
                metrics,
            ) && r->Ok_0.timestamp_ms is None,
    {
        match check_dimensions(scheme_a.n_categories(), scheme_b.n_categories()) {
            Err(e) => Err(e),
            Ok(()) => Ok(
                ConflictPotential {
                    actor_a: scheme_a.actor_id.clone(),
                    actor_b: scheme_b.actor_id.clone(),
                    phi: metrics.symmetric_kl,
                    js: metrics.jensen_shannon,
                    hellinger: metrics.hellinger,
                    kl_a_b: metrics.kl_p_q,
                    kl_b_a: metrics.kl_q_p,
                    timestamp_ms: None,
                },
            ),
        }
    }

    /// The entity whose worldview the other finds the more surprising.
    pub fn dominant_diverger(&self) -> (r: &str)
        ensures
            r@ == self.diverger(),
    {
        if self.kl_b_a.is_gt(self.kl_a_b) {
            self.actor_a.as_str()
        } else {
            self.actor_b.as_str()
        }
    }

    /// The category of the potential.
    pub fn risk_category(&self) -> (r: RiskLevel)
        ensures
            r == RiskLevel::of_phi(self.phi),
    {
        RiskLevel::from_phi(self.phi)
    }

    /// A copy of the record.
    pub fn duplicate(&self) -> (r: ConflictPotential)
        ensures
            r == *self,
    {
        ConflictPotential {
            actor_a: self.actor_a.clone(),
            actor_b: self.actor_b.clone(),
            phi: self.phi,
            js: self.js,
            hellinger: self.hellinger,
            kl_a_b: self.kl_a_b,
            kl_b_a: self.kl_b_a,
            timestamp_ms: self.timestamp_ms,
        }
    }
}

} // verus!
