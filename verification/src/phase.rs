//! Phases of a monitored series and the rule that assigns them.

use vstd::prelude::*;
use crate::scalar::Scalar;

verus! {

/// Bit pattern of 0.0.
pub const ZERO_BITS: u64 = 0u64;

/// Bit pattern of 1.0.
pub const ONE_BITS: u64 = 0x3FF0_0000_0000_0000u64;

/// Bit pattern of 1.5, the default threshold.
pub const DEFAULT_THRESHOLD_BITS: u64 = 0x3FF8_0000_0000_0000u64;

/// Bit pattern of 1.0, the threshold of the sensitive preset.
pub const SENSITIVE_THRESHOLD_BITS: u64 = 0x3FF0_0000_0000_0000u64;

/// Bit pattern of 2.5, the threshold of the conservative preset.
pub const CONSERVATIVE_THRESHOLD_BITS: u64 = 0x4004_0000_0000_0000u64;

/// Where a monitored series stands.
#[derive(Clone, Copy, Debug, PartialEq, Eq, Structural)]
pub enum Phase {
    /// Nothing is happening.
    Stable,
    /// The variance dynamics are changing.
    Approaching,
    /// A strong inflection: a transition is likely.
    Critical,
    /// A transition was committed and its cooldown runs.
    Transitioning,
}

impl Default for Phase {
    fn default() -> (r: Phase)
        ensures
            r == Phase::Stable,
    {
        Phase::Stable
    }
}

/// How the variance trajectory is smoothed.
#[derive(Clone, Copy, Debug, PartialEq, Eq, Structural)]
pub enum SmoothingKernel {
    /// Equal weights.
    Uniform,
    /// Weights that fall linearly from the newest sample.
    Gaussian,
}

impl Default for SmoothingKernel {
    fn default() -> (r: SmoothingKernel)
        ensures
            r == SmoothingKernel::Uniform,
    {
        SmoothingKernel::Uniform
    }
}

/// Settings of a detector.
#[derive(Clone, Copy, Debug)]
pub struct VarianceConfig {
    /// Samples in the rolling variance.
    pub window_size: usize,
    /// Variances in the smoothing average.
    pub smoothing_window: usize,
    /// Score above which a series is approaching a transition.
    pub threshold: Scalar,
    /// Updates for which a committed transition silences the detector.
    pub min_peak_distance: usize,
    /// Weights of the smoothing average.
    pub kernel: SmoothingKernel,
}

impl Default for VarianceConfig {
    fn default() -> (r: VarianceConfig)
        ensures
            r.window_size == 40,
            r.smoothing_window == 15,
            r.threshold.bits == DEFAULT_THRESHOLD_BITS,
            r.min_peak_distance == 20,
            r.kernel == SmoothingKernel::Uniform,
    {
        VarianceConfig {
            window_size: 40,
            smoothing_window: 15,
            threshold: Scalar { bits: DEFAULT_THRESHOLD_BITS },
            min_peak_distance: 20,
            kernel: SmoothingKernel::Uniform,
        }
    }
}

impl VarianceConfig {
    /// A lower threshold and a shorter cooldown.
    pub fn sensitive() -> (r: VarianceConfig)
        ensures
            r.window_size == 40,
            r.smoothing_window == 15,
            r.threshold.bits == SENSITIVE_THRESHOLD_BITS,
            r.min_peak_distance == 10,
            r.kernel == SmoothingKernel::Uniform,
    {
        VarianceConfig {
            window_size: 40,
            smoothing_window: 15,
            threshold: Scalar { bits: SENSITIVE_THRESHOLD_BITS },
            min_peak_distance: 10,
            kernel: SmoothingKernel::Uniform,
        }
    }

    /// A higher threshold and a longer cooldown.
    pub fn conservative() -> (r: VarianceConfig)
        ensures
            r.window_size == 40,
            r.smoothing_window == 15,
            r.threshold.bits == CONSERVATIVE_THRESHOLD_BITS,
            r.min_peak_distance == 30,
            r.kernel == SmoothingKernel::Uniform,
    {
        VarianceConfig {
            window_size: 40,
            smoothing_window: 15,
            threshold: Scalar { bits: CONSERVATIVE_THRESHOLD_BITS },
            min_peak_distance: 30,
            kernel: SmoothingKernel::Uniform,
        }
    }
}

/// A series is warming up until it has seen twice its window.
pub open spec fn warming_up(count: nat, window_size: nat) -> bool {
    count < 2 * window_size
}

/// The phase of a series: `Stable` while it warms up, whatever the score;
/// then `Transitioning` while a cooldown runs; then by the score `z`
/// against the two levels.
pub open spec fn phase_of(
    count: nat,
    window_size: nat,
    cooldown: nat,
    z: Scalar,
    threshold: Scalar,
    critical: Scalar,
) -> Phase {
    if warming_up(count, window_size) {
        Phase::Stable
    } else if cooldown > 0 {
        Phase::Transitioning
    } else if z.gt(critical) {
        Phase::Critical
    } else if z.gt(threshold) {
        Phase::Approaching
    } else {
        Phase::Stable
    }
}

/// Whether `count` observations are fewer than twice the window.
pub fn is_warming_up(count: usize, window_size: usize) -> (r: bool)
    ensures
        r == warming_up(count as nat, window_size as nat),
{
    count / 2 < window_size
}

/// Assigns the phase. `threshold` is the configured level and `critical`
/// the level one and a half times as high.
pub fn classify(
    count: usize,
    window_size: usize,
    cooldown: usize,
    z: Scalar,
    threshold: Scalar,
    critical: Scalar,
) -> (r: Phase)
    ensures
        r == phase_of(count as nat, window_size as nat, cooldown as nat, z, threshold, critical),
{
    if is_warming_up(count, window_size) {
        Phase::Stable
    } else if cooldown > 0 {
        Phase::Transitioning
    } else if z.is_gt(critical) {
        Phase::Critical
    } else if z.is_gt(threshold) {
        Phase::Approaching
    } else {
        Phase::Stable
    }
}

/// `x` brought into the unit interval: 0 below it, 1 above it, `x` itself
/// inside it and where `x` is a NaN.
pub open spec fn unit_clamp(x: Scalar) -> Scalar {
    if x.lt(Scalar { bits: ZERO_BITS }) {
        Scalar { bits: ZERO_BITS }
    } else if x.gt(Scalar { bits: ONE_BITS }) {
        Scalar { bits: ONE_BITS }
    } else {
        x
    }
}

/// The confidence in a phase: nothing while the series warms up, else the
/// ratio of the score to twice the threshold, within the unit interval.
pub open spec fn confidence_of(count: nat, window_size: nat, ratio: Scalar) -> Scalar {
    if warming_up(count, window_size) {
        Scalar { bits: ZERO_BITS }
    } else {
        unit_clamp(ratio)
    }
}

/// Brings `x` into the unit interval.
pub fn clamp_unit(x: Scalar) -> (r: Scalar)
    ensures
        r == unit_clamp(x),
{
    if x.is_lt(Scalar { bits: ZERO_BITS }) {
        Scalar { bits: ZERO_BITS }
    } else if x.is_gt(Scalar { bits: ONE_BITS }) {
        Scalar { bits: ONE_BITS }
    } else {
        x
    }
}

/// The confidence from the ratio of the score to twice the threshold.
pub fn confidence(count: usize, window_size: usize, ratio: Scalar) -> (r: Scalar)
    ensures
        r == confidence_of(count as nat, window_size as nat, ratio),
{
    if is_warming_up(count, window_size) {
        Scalar { bits: ZERO_BITS }
    } else {
        clamp_unit(ratio)
    }
}

/// While a series warms up its phase is never `Critical`, nor anything but
/// `Stable`, whatever the score and the levels.
pub proof fn lemma_warm_up_is_stable(
    count: nat,
    window_size: nat,
    cooldown: nat,
    z: Scalar,
    threshold: Scalar,
    critical: Scalar,
)
    requires
        count < 2 * window_size,
    ensures
        phase_of(count, window_size, cooldown, z, threshold, critical) == Phase::Stable,
        phase_of(count, window_size, cooldown, z, threshold, critical) != Phase::Critical,
{
}

/// A score of zero, or any score that is not above the threshold, leaves a
/// series without a cooldown `Stable`.
pub proof fn lemma_quiet_score_is_stable(
    count: nat,
    window_size: nat,
    z: Scalar,
    threshold: Scalar,
    critical: Scalar,
)
    requires
        !z.gt(threshold),
        !z.gt(critical),
    ensures
        phase_of(count, window_size, 0, z, threshold, critical) == Phase::Stable,
{
}

/// A confidence is never a value outside the unit interval: it is 0, 1, a
/// value between them, or the NaN that came in.
pub proof fn lemma_confidence_in_unit_interval(count: nat, window_size: nat, ratio: Scalar)
    ensures
        ({
            let c = confidence_of(count, window_size, ratio);
            c.nan() || (0 <= c.key() <= ONE_BITS)
        }),
        !ratio.nan() ==> !confidence_of(count, window_size, ratio).nan(),
{
}

} // verus!
