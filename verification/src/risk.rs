//! Risk categories and their cut points.

use vstd::prelude::*;
use crate::scalar::Scalar;

verus! {

/// Bit pattern of 0.5.
pub const PHI_MODERATE_BITS: u64 = 0x3FE0_0000_0000_0000u64;

/// Bit pattern of 1.0.
pub const PHI_ELEVATED_BITS: u64 = 0x3FF0_0000_0000_0000u64;

/// Bit pattern of 2.0.
pub const PHI_HIGH_BITS: u64 = 0x4000_0000_0000_0000u64;

/// Bit pattern of 4.0.
pub const PHI_CRITICAL_BITS: u64 = 0x4010_0000_0000_0000u64;

/// Bit pattern of 0.2.
pub const PROBABILITY_MODERATE_BITS: u64 = 0x3FC9_9999_9999_999Au64;

/// Bit pattern of 0.4.
pub const PROBABILITY_ELEVATED_BITS: u64 = 0x3FD9_9999_9999_999Au64;

/// Bit pattern of 0.6.
pub const PROBABILITY_HIGH_BITS: u64 = 0x3FE3_3333_3333_3333u64;

/// Bit pattern of 0.8.
pub const PROBABILITY_CRITICAL_BITS: u64 = 0x3FE9_9999_9999_999Au64;

/// How much is at risk, in five steps.
#[derive(Clone, Copy, Debug, PartialEq, Eq, Structural)]
pub enum RiskLevel {
    Low,
    Moderate,
    Elevated,
    High,
    Critical,
}

/// The step that `x` falls into between four rising cut points: the first
/// one that `x` is strictly below, or the last step where it is below none
/// (as a NaN is).
pub open spec fn step_of(x: Scalar, c1: u64, c2: u64, c3: u64, c4: u64) -> RiskLevel {
    if x.lt(Scalar { bits: c1 }) {
        RiskLevel::Low
    } else if x.lt(Scalar { bits: c2 }) {
        RiskLevel::Moderate
    } else if x.lt(Scalar { bits: c3 }) {
        RiskLevel::Elevated
    } else if x.lt(Scalar { bits: c4 }) {
        RiskLevel::High
    } else {
        RiskLevel::Critical
    }
}

fn step(x: Scalar, c1: u64, c2: u64, c3: u64, c4: u64) -> (r: RiskLevel)
    ensures
        r == step_of(x, c1, c2, c3, c4),
{
    if x.is_lt(Scalar { bits: c1 }) {
        RiskLevel::Low
    } else if x.is_lt(Scalar { bits: c2 }) {
        RiskLevel::Moderate
    } else if x.is_lt(Scalar { bits: c3 }) {
        RiskLevel::Elevated
    } else if x.is_lt(Scalar { bits: c4 }) {
        RiskLevel::High
    } else {
        RiskLevel::Critical
    }
}

impl RiskLevel {
    /// The category of a conflict potential: cut points 0.5, 1, 2 and 4.
    pub open spec fn of_phi(phi: Scalar) -> RiskLevel {
        step_of(phi, PHI_MODERATE_BITS, PHI_ELEVATED_BITS, PHI_HIGH_BITS, PHI_CRITICAL_BITS)
    }

    /// The category of an escalation probability: cut points 0.2, 0.4, 0.6
    /// and 0.8.
    pub open spec fn of_probability(prob: Scalar) -> RiskLevel {
        step_of(
            prob,
            PROBABILITY_MODERATE_BITS,
            PROBABILITY_ELEVATED_BITS,
            PROBABILITY_HIGH_BITS,
            PROBABILITY_CRITICAL_BITS,
        )
    }

    /// The category's name in capitals.
    pub open spec fn name(self) -> Seq<char> {
        match self {
            RiskLevel::Low => "LOW"@,
            RiskLevel::Moderate => "MODERATE"@,
            RiskLevel::Elevated => "ELEVATED"@,
            RiskLevel::High => "HIGH"@,
            RiskLevel::Critical => "CRITICAL"@,
        }
    }

    /// The position of the category, from 0 for `Low` to 4 for `Critical`.
    pub open spec fn rank(self) -> int {
        match self {
            RiskLevel::Low => 0,
            RiskLevel::Moderate => 1,
            RiskLevel::Elevated => 2,
            RiskLevel::High => 3,
            RiskLevel::Critical => 4,
        }
    }

    /// The category of a conflict potential.
    pub fn from_phi(phi: Scalar) -> (r: RiskLevel)
        ensures
            r == RiskLevel::of_phi(phi),
    {
        step(phi, PHI_MODERATE_BITS, PHI_ELEVATED_BITS, PHI_HIGH_BITS, PHI_CRITICAL_BITS)
    }

    /// The category of an escalation probability.
    pub fn from_probability(prob: Scalar) -> (r: RiskLevel)
        ensures
            r == RiskLevel::of_probability(prob),
    {
        step(
            prob,
            PROBABILITY_MODERATE_BITS,
            PROBABILITY_ELEVATED_BITS,
            PROBABILITY_HIGH_BITS,
            PROBABILITY_CRITICAL_BITS,
        )
    }

    /// The category's name in capitals.
    pub fn as_str(&self) -> (r: &'static str)
        ensures
            r@ == self.name(),
    {
        match self {
            RiskLevel::Low => "LOW",
            RiskLevel::Moderate => "MODERATE",
            RiskLevel::Elevated => "ELEVATED",
            RiskLevel::High => "HIGH",
            RiskLevel::Critical => "CRITICAL",
        }
    }
}

/// A larger value never falls into a lower category.
pub proof fn lemma_risk_monotone(a: Scalar, b: Scalar)
    requires
        a.le(b),
    ensures
        RiskLevel::of_phi(a).rank() <= RiskLevel::of_phi(b).rank(),
        RiskLevel::of_probability(a).rank() <= RiskLevel::of_probability(b).rank(),
{
}

} // verus!
