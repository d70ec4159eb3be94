//! Alert levels and the rule that fuses a phase with a conflict potential
//! and its trend.

use vstd::prelude::*;
use crate::phase::Phase;
use crate::scalar::Scalar;

verus! {

/// Bit pattern of 1.0: a potential above it is high.
pub const PHI_HIGH_BITS: u64 = 0x3FF0_0000_0000_0000u64;

/// Bit pattern of 1.5: above it an approaching transition is a warning.
pub const PHI_WARNING_BITS: u64 = 0x3FF8_0000_0000_0000u64;

/// Bit pattern of 2.0: above it even a stable pair is watched.
pub const PHI_WATCH_BITS: u64 = 0x4000_0000_0000_0000u64;

/// Bit pattern of 0.1: a trend above it is steep.
pub const TREND_STEEP_BITS: u64 = 0x3FB9_9999_9999_999Au64;

/// Bit pattern of 0.05: a trend above it is rising.
pub const TREND_RISING_BITS: u64 = 0x3FA9_9999_9999_999Au64;

/// Bit pattern of -0.05: a trend below it is falling.
pub const TREND_FALLING_BITS: u64 = 0xBFA9_9999_9999_999Au64;

/// How many of the newest samples a trend spans.
pub const TREND_SPAN: usize = 10;

/// Urgency of an alert, lowest first.
#[derive(Clone, Copy, Debug, PartialEq, Eq, PartialOrd, Ord, Structural)]
pub enum AlertLevel {
    /// Nothing to report.
    Green,
    /// Watch.
    Yellow,
    /// Warning.
    Orange,
    /// A transition is imminent.
    Red,
}

impl Default for AlertLevel {
    fn default() -> (r: AlertLevel)
        ensures
            r == AlertLevel::Green,
    {
        AlertLevel::Green
    }
}

impl AlertLevel {
    /// The position of the level, from 0 for `Green` to 3 for `Red`.
    pub open spec fn rank(self) -> int {
        match self {
            AlertLevel::Green => 0,
            AlertLevel::Yellow => 1,
            AlertLevel::Orange => 2,
            AlertLevel::Red => 3,
        }
    }

    /// A level that is handed to the caller: `Yellow` or above.
    pub open spec fn reportable(self) -> bool {
        self.rank() >= 1
    }

    /// A level that asks for action: `Orange` or `Red`.
    pub open spec fn actionable(self) -> bool {
        self.rank() >= 2
    }

    /// Whether the level is handed to the caller.
    pub fn is_reportable(&self) -> (r: bool)
        ensures
            r == self.reportable(),
    {
        match self {
            AlertLevel::Green => false,
            _ => true,
        }
    }

    /// Whether the level asks for action.
    pub fn is_actionable(&self) -> (r: bool)
        ensures
            r == self.actionable(),
    {
        match self {
            AlertLevel::Orange => true,
            AlertLevel::Red => true,
            _ => false,
        }
    }
}

/// The alert level of a pair, from the phase of its detector, its conflict
/// potential and the trend of that potential.
pub open spec fn alert_level_of(phase: Phase, phi: Scalar, phi_trend: Scalar) -> AlertLevel {
    match phase {
        Phase::Critical | Phase::Transitioning => {
            if phi.gt(Scalar { bits: PHI_HIGH_BITS }) {
                AlertLevel::Red
            } else {
                AlertLevel::Orange
            }
        },
        Phase::Approaching => {
            if phi.gt(Scalar { bits: PHI_WARNING_BITS }) || phi_trend.gt(
                Scalar { bits: TREND_STEEP_BITS },
            ) {
                AlertLevel::Orange
            } else {
                AlertLevel::Yellow
            }
        },
        Phase::Stable => {
            if phi.gt(Scalar { bits: PHI_WATCH_BITS }) || (phi.gt(Scalar { bits: PHI_HIGH_BITS })
                && phi_trend.gt(Scalar { bits: TREND_RISING_BITS })) {
                AlertLevel::Yellow
            } else {
                AlertLevel::Green
            }
        },
    }
}

/// Computes the alert level. It reads nothing but its three arguments, so
/// equal arguments give equal levels.
pub fn compute_alert_level(phase: Phase, phi: Scalar, phi_trend: Scalar) -> (r: AlertLevel)
    ensures
        r == alert_level_of(phase, phi, phi_trend),
{
    match phase {
        Phase::Critical | Phase::Transitioning => {
            if phi.is_gt(Scalar { bits: PHI_HIGH_BITS }) {
                AlertLevel::Red
            } else {
                AlertLevel::Orange
            }
        },
        Phase::Approaching => {
            if phi.is_gt(Scalar { bits: PHI_WARNING_BITS }) || phi_trend.is_gt(
                Scalar { bits: TREND_STEEP_BITS },
            ) {
                AlertLevel::Orange
            } else {
                AlertLevel::Yellow
            }
        },
        Phase::Stable => {
            if phi.is_gt(Scalar { bits: PHI_WATCH_BITS }) || (phi.is_gt(
                Scalar { bits: PHI_HIGH_BITS },
            ) && phi_trend.is_gt(Scalar { bits: TREND_RISING_BITS })) {
                AlertLevel::Yellow
            } else {
                AlertLevel::Green
            }
        },
    }
}

/// Which way a potential moves.
#[derive(Clone, Copy, Debug, PartialEq, Eq, Structural)]
pub enum TrendDirection {
    Increasing,
    Decreasing,
    Stable,
}

/// The direction of a trend: rising above 0.05, falling below -0.05.
pub open spec fn direction_of(phi_trend: Scalar) -> TrendDirection {
    if phi_trend.gt(Scalar { bits: TREND_RISING_BITS }) {
        TrendDirection::Increasing
    } else if phi_trend.lt(Scalar { bits: TREND_FALLING_BITS }) {
        TrendDirection::Decreasing
    } else {
        TrendDirection::Stable
    }
}

impl TrendDirection {
    /// The word that a message uses for the direction.
    pub open spec fn word(self) -> Seq<char> {
        match self {
            TrendDirection::Increasing => "increasing"@,
            TrendDirection::Decreasing => "decreasing"@,
            TrendDirection::Stable => "stable"@,
        }
    }

    /// The direction of a trend.
    pub fn from_trend(phi_trend: Scalar) -> (r: TrendDirection)
        ensures
            r == direction_of(phi_trend),
    {
        if phi_trend.is_gt(Scalar { bits: TREND_RISING_BITS }) {
            TrendDirection::Increasing
        } else if phi_trend.is_lt(Scalar { bits: TREND_FALLING_BITS }) {
            TrendDirection::Decreasing
        } else {
            TrendDirection::Stable
        }
    }

    /// The word for the direction.
    pub fn as_str(&self) -> (r: &'static str)
        ensures
            r@ == self.word(),
    {
        match self {
            TrendDirection::Increasing => "increasing",
            TrendDirection::Decreasing => "decreasing",
            TrendDirection::Stable => "stable",
        }
    }
}

/// A finding about one pair of entities.
#[derive(Debug)]
pub struct NucleationAlert {
    pub actor_a: String,
    pub actor_b: String,
    pub alert_level: AlertLevel,
    pub phase: Phase,
    pub phi: Scalar,
    pub phi_trend: Scalar,
    pub confidence: Scalar,
    pub timestamp: i64,
    pub message: String,
}

impl NucleationAlert {
    /// A copy of the finding.
    pub fn duplicate(&self) -> (r: NucleationAlert)
        ensures
            r == *self,
    {
        NucleationAlert {
            actor_a: self.actor_a.clone(),
            actor_b: self.actor_b.clone(),
            alert_level: self.alert_level,
            phase: self.phase,
            phi: self.phi,
            phi_trend: self.phi_trend,
            confidence: self.confidence,
            timestamp: self.timestamp,
            message: self.message.clone(),
        }
    }

    /// Whether the level asks for action.
    pub fn is_actionable(&self) -> (r: bool)
        ensures
            r == self.alert_level.actionable(),
    {
        self.alert_level.is_actionable()
    }
}

/// The alert level depends on the phase, the potential and the trend
/// alone: equal inputs, equal level.
pub proof fn lemma_alert_level_deterministic(
    phase_1: Phase,
    phi_1: Scalar,
    trend_1: Scalar,
    phase_2: Phase,
    phi_2: Scalar,
    trend_2: Scalar,
)
    requires
        phase_1 == phase_2,
        phi_1 == phi_2,
        trend_1 == trend_2,
    ensures
        alert_level_of(phase_1, phi_1, trend_1) == alert_level_of(phase_2, phi_2, trend_2),
{
}

/// The level also agrees on inputs that are numerically equal though their
/// patterns differ, as the two zeros do.
pub proof fn lemma_alert_level_numeric(phase: Phase, phi_1: Scalar, trend_1: Scalar, phi_2: Scalar, trend_2: Scalar)
    requires
        phi_1.same(phi_2),
        trend_1.same(trend_2),
    ensures
        alert_level_of(phase, phi_1, trend_1) == alert_level_of(phase, phi_2, trend_2),
{
}

/// A critical or committed transition is always actionable, an approaching
/// one always reportable, and a stable pair never actionable.
pub proof fn lemma_alert_level_by_phase(phase: Phase, phi: Scalar, phi_trend: Scalar)
    ensures
        (phase == Phase::Critical || phase == Phase::Transitioning) ==> alert_level_of(
            phase,
            phi,
            phi_trend,
        ).actionable(),
        phase == Phase::Approaching ==> alert_level_of(phase, phi, phi_trend).reportable(),
        phase == Phase::Stable ==> !alert_level_of(phase, phi, phi_trend).actionable(),
{
}

/// A higher potential never lowers the level.
pub proof fn lemma_alert_level_monotone_in_phi(phase: Phase, low: Scalar, high: Scalar, phi_trend: Scalar)
    requires
        low.le(high),
    ensures
        alert_level_of(phase, low, phi_trend).rank() <= alert_level_of(phase, high, phi_trend).rank(),
{
}

} // verus!
