//! The variance-inflection detector: the histories it keeps, when each of
//! its statistics is due, and the phase it reports.
//!
//! The detector does no arithmetic. One observation passes through five
//! stages; each stage stores a number and hands back the samples from which
//! the caller computes the next one:
//!
//! 1. `observe` stores the observation and hands back the window to take
//!    the variance of, once the window is full;
//! 2. `record_variance` stores that variance and hands back the variances to
//!    smooth;
//! 3. `record_smoothed` stores the smoothed variance and hands back the pair
//!    whose difference is the trend;
//! 4. `record_trend` stores the trend and hands back the pair whose
//!    difference is the inflection;
//! 5. `record_inflection` stores the inflection and the baseline that the
//!    caller updated with it.
//!
//! A stage that hands back `None` ends the observation. The detector knows
//! which number it waits for, and takes no other.

use vstd::prelude::*;
use std::collections::VecDeque;
use crate::phase::{Phase, VarianceConfig, phase_of, confidence_of, classify, confidence, ONE_BITS, ZERO_BITS};
use crate::scalar::Scalar;
use crate::window::{ring_pushed, newest_first, push_ring, recent, newest, newest_pair};

verus! {

/// Bit pattern of 1e-10, below which a baseline deviation does not fall.
pub const BASELINE_FLOOR_BITS: u64 = 0x3DDB_7CDF_D9D7_BDBBu64;

/// The number that a detector waits for: the stage that comes next.
#[derive(Clone, Copy, Debug, PartialEq, Eq, Structural)]
pub enum Pending {
    /// No observation is under way: the next one may come.
    Nothing,
    /// The variance of the window that `observe` handed back.
    Variance,
    /// The average of the variances that `record_variance` handed back.
    Smoothed,
    /// The difference of the pair that `record_smoothed` handed back.
    Trend,
    /// The difference of the pair that `record_trend` handed back, and
    /// the baseline updated with it.
    Inflection,
}

/// What the caller's arithmetic yields for one reading of a detector.
#[derive(Clone, Copy, Debug)]
pub struct Score {
    /// The inflection's distance from the baseline, in baseline deviations;
    /// zero where `score_inputs` gave nothing to compute it from.
    pub z: Scalar,
    /// One and a half times the configured threshold.
    pub critical_level: Scalar,
    /// `z` over twice the configured threshold.
    pub confidence_ratio: Scalar,
}

/// One reading of a detector.
#[derive(Clone, Copy, Debug)]
pub struct InflectionResult {
    pub phase: Phase,
    pub confidence: Scalar,
    pub inflection_magnitude: Scalar,
    pub current_variance: Scalar,
    pub variance_trend: Scalar,
    pub d2_variance: Scalar,
}

/// The newest item of a history, or zero where it is empty.
pub open spec fn last_or_zero(buf: Seq<Scalar>) -> Scalar {
    if buf.len() > 0 {
        buf[buf.len() - 1]
    } else {
        Scalar { bits: ZERO_BITS }
    }
}

/// The two newest items of a history, the newest first.
pub open spec fn last_pair(buf: Seq<Scalar>) -> Option<(Scalar, Scalar)> {
    if buf.len() >= 2 {
        Some((buf[buf.len() - 1], buf[buf.len() - 2]))
    } else {
        None
    }
}

/// A deviation, kept from falling below the floor of 1e-10.
pub open spec fn floored(raw: Scalar) -> Scalar {
    raw.larger(Scalar { bits: BASELINE_FLOOR_BITS })
}

/// `after` is `before` with the observation `value` taken in, and `window`
/// what the first stage hands back: see `observe`.
pub open spec fn observed(
    before: VarianceInflectionDetector,
    after: VarianceInflectionDetector,
    value: Scalar,
    window: Option<Vec<Scalar>>,
) -> bool {
    &&& after.settings() == before.settings()
    &&& after.total() == before.total() + 1
    &&& after.observations() == ring_pushed(
        before.observations(),
        3 * before.settings().window_size,
        value,
    )
    &&& after.cooldown() == if before.cooldown() > 0 {
        (before.cooldown() - 1) as nat
    } else {
        0
    }
    &&& after.variances() == before.variances()
    &&& after.smoothed() == before.smoothed()
    &&& after.trends() == before.trends()
    &&& after.inflections() == before.inflections()
    &&& after.baseline_mean() == before.baseline_mean()
    &&& after.baseline_std() == before.baseline_std()
    &&& after.baseline_samples() == before.baseline_samples()
    &&& after.observations().len() >= after.settings().window_size ==> window is Some
        && window->0@ == newest_first(after.observations(), after.settings().window_size as int)
        && after.awaited() == Pending::Variance
    &&& after.observations().len() < after.settings().window_size ==> window is None
        && after.awaited() == Pending::Nothing
}

/// `after` is `before` with a rolling variance stored: see
/// `record_variance`.
pub open spec fn variance_recorded(
    before: VarianceInflectionDetector,
    after: VarianceInflectionDetector,
    variance: Scalar,
) -> bool {
    &&& after.variances() == ring_pushed(
        before.variances(),
        2 * before.settings().window_size,
        variance,
    )
    &&& after.awaited() == Pending::Smoothed
    &&& after.settings() == before.settings()
    &&& after.observations() == before.observations()
    &&& after.smoothed() == before.smoothed()
    &&& after.trends() == before.trends()
    &&& after.inflections() == before.inflections()
    &&& after.baseline_mean() == before.baseline_mean()
    &&& after.baseline_std() == before.baseline_std()
    &&& after.baseline_samples() == before.baseline_samples()
    &&& after.cooldown() == before.cooldown()
    &&& after.total() == before.total()
}

/// `after` is `before` with a smoothed variance stored: see
/// `record_smoothed`.
pub open spec fn smoothed_recorded(
    before: VarianceInflectionDetector,
    after: VarianceInflectionDetector,
    smoothed: Scalar,
) -> bool {
    &&& after.smoothed() == ring_pushed(
        before.smoothed(),
        2 * before.settings().window_size,
        smoothed,
    )
    &&& after.awaited() == if after.smoothed().len() >= 2 {
        Pending::Trend
    } else {
        Pending::Nothing
    }
    &&& after.settings() == before.settings()
    &&& after.observations() == before.observations()
    &&& after.variances() == before.variances()
    &&& after.trends() == before.trends()
    &&& after.inflections() == before.inflections()
    &&& after.baseline_mean() == before.baseline_mean()
    &&& after.baseline_std() == before.baseline_std()
    &&& after.baseline_samples() == before.baseline_samples()
    &&& after.cooldown() == before.cooldown()
    &&& after.total() == before.total()
}

/// `after` is `before` with a trend stored: see `record_trend`.
pub open spec fn trend_recorded(
    before: VarianceInflectionDetector,
    after: VarianceInflectionDetector,
    trend: Scalar,
) -> bool {
    &&& after.trends() == ring_pushed(before.trends(), 2 * before.settings().window_size, trend)
    &&& after.awaited() == if after.trends().len() >= 2 {
        Pending::Inflection
    } else {
        Pending::Nothing
    }
    &&& after.settings() == before.settings()
    &&& after.observations() == before.observations()
    &&& after.variances() == before.variances()
    &&& after.smoothed() == before.smoothed()
    &&& after.inflections() == before.inflections()
    &&& after.baseline_mean() == before.baseline_mean()
    &&& after.baseline_std() == before.baseline_std()
    &&& after.baseline_samples() == before.baseline_samples()
    &&& after.cooldown() == before.cooldown()
    &&& after.total() == before.total()
}

/// `after` is `before` with an inflection and the updated baseline
/// stored: see `record_inflection`.
pub open spec fn inflection_recorded(
    before: VarianceInflectionDetector,
    after: VarianceInflectionDetector,
    inflection: Scalar,
    mean: Scalar,
    raw_std: Scalar,
) -> bool {
    &&& after.inflections() == ring_pushed(
        before.inflections(),
        2 * before.settings().window_size,
        inflection,
    )
    &&& after.baseline_mean() == mean
    &&& after.baseline_std() == floored(raw_std)
    &&& after.baseline_samples() == before.baseline_samples() + 1
    &&& after.awaited() == Pending::Nothing
    &&& after.settings() == before.settings()
    &&& after.observations() == before.observations()
    &&& after.variances() == before.variances()
    &&& after.smoothed() == before.smoothed()
    &&& after.trends() == before.trends()
    &&& after.cooldown() == before.cooldown()
    &&& after.total() == before.total()
}

/// A history that holds no more than `cap` items, or the one item that a
/// ring of no capacity still holds.
pub open spec fn fits(history: Seq<Scalar>, cap: int) -> bool {
    history.len() <= cap || history.len() <= 1
}

/// Every history of the detector is within its capacity: three windows of
/// observations, two windows of each statistic.
pub open spec fn within_capacity(detector: VarianceInflectionDetector) -> bool {
    let w = detector.settings().window_size as int;
    &&& fits(detector.observations(), 3 * w)
    &&& fits(detector.variances(), 2 * w)
    &&& fits(detector.smoothed(), 2 * w)
    &&& fits(detector.trends(), 2 * w)
    &&& fits(detector.inflections(), 2 * w)
}

/// Streaming detector of inflections in the variance of a series.
#[derive(Debug)]
pub struct VarianceInflectionDetector {
    config: VarianceConfig,
    observations: VecDeque<Scalar>,
    variance_history: VecDeque<Scalar>,
    smoothed_variance: VecDeque<Scalar>,
    d1_variance: VecDeque<Scalar>,
    d2_variance: VecDeque<Scalar>,
    baseline_d2_mean: Scalar,
    baseline_d2_std: Scalar,
    baseline_samples: usize,
    cooldown: usize,
    count: usize,
    pending: Pending,
}

impl VarianceInflectionDetector {
    /// The settings.
    pub closed spec fn settings(&self) -> VarianceConfig {
        self.config
    }

    /// The raw observations, oldest first: a ring of three windows.
    pub closed spec fn observations(&self) -> Seq<Scalar> {
        self.observations@
    }

    /// The rolling variances: a ring of two windows, as the next three are.
    pub closed spec fn variances(&self) -> Seq<Scalar> {
        self.variance_history@
    }

    /// The smoothed variances.
    pub closed spec fn smoothed(&self) -> Seq<Scalar> {
        self.smoothed_variance@
    }

    /// The first differences of the smoothed variances.
    pub closed spec fn trends(&self) -> Seq<Scalar> {
        self.d1_variance@
    }

    /// The second differences of the smoothed variances.
    pub closed spec fn inflections(&self) -> Seq<Scalar> {
        self.d2_variance@
    }

    /// The running mean of the inflections' magnitudes.
    pub closed spec fn baseline_mean(&self) -> Scalar {
        self.baseline_d2_mean
    }

    /// The running deviation of the inflections' magnitudes.
    pub closed spec fn baseline_std(&self) -> Scalar {
        self.baseline_d2_std
    }

    /// How many inflections the baseline has seen.
    pub closed spec fn baseline_samples(&self) -> nat {
        self.baseline_samples as nat
    }

    /// Updates for which the detector stays silenced.
    pub closed spec fn cooldown(&self) -> nat {
        self.cooldown as nat
    }

    /// Observations seen since the last reset.
    pub closed spec fn total(&self) -> nat {
        self.count as nat
    }

    /// The number that the detector waits for.
    pub closed spec fn awaited(&self) -> Pending {
        self.pending
    }

    /// A detector that has seen nothing: empty histories, a baseline of mean
    /// 0 and deviation 1, no cooldown.
    pub open spec fn fresh(&self) -> bool {
        &&& self.observations() == Seq::<Scalar>::empty()
        &&& self.variances() == Seq::<Scalar>::empty()
        &&& self.smoothed() == Seq::<Scalar>::empty()
        &&& self.trends() == Seq::<Scalar>::empty()
        &&& self.inflections() == Seq::<Scalar>::empty()
        &&& self.baseline_mean() == Scalar { bits: ZERO_BITS }
        &&& self.baseline_std() == Scalar { bits: ONE_BITS }
        &&& self.baseline_samples() == 0
        &&& self.cooldown() == 0
        &&& self.total() == 0
        &&& self.awaited() == Pending::Nothing
    }

    /// The phase that the detector reports for a score.
    pub open spec fn phase_for(&self, score: Score) -> Phase {
        phase_of(
            self.total(),
            self.settings().window_size as nat,
            self.cooldown(),
            score.z,
            self.settings().threshold,
            score.critical_level,
        )
    }

    /// The reading that the detector gives for a score.
    pub open spec fn result_for(&self, score: Score) -> InflectionResult {
        InflectionResult {
            phase: self.phase_for(score),
            confidence: confidence_of(
                self.total(),
                self.settings().window_size as nat,
                score.confidence_ratio,
            ),
            inflection_magnitude: score.z,
            current_variance: last_or_zero(self.variances()),
            variance_trend: last_or_zero(self.trends()),
            d2_variance: last_or_zero(self.inflections()),
        }
    }

    /// A detector with the given settings that has seen nothing.
    pub fn new(config: VarianceConfig) -> (r: VarianceInflectionDetector)
        ensures
            r.settings() == config,
            r.fresh(),
    {
        VarianceInflectionDetector {
            config,
            observations: VecDeque::new(),
            variance_history: VecDeque::new(),
            smoothed_variance: VecDeque::new(),
            d1_variance: VecDeque::new(),
            d2_variance: VecDeque::new(),
            baseline_d2_mean: Scalar { bits: ZERO_BITS },
            baseline_d2_std: Scalar { bits: ONE_BITS },
            baseline_samples: 0,
            cooldown: 0,
            count: 0,
            pending: Pending::Nothing,
        }
    }

    /// A detector with the default settings.
    pub fn with_default_config() -> (r: VarianceInflectionDetector)
        ensures
            r.settings().window_size == 40,
            r.settings().smoothing_window == 15,
            r.settings().threshold.bits == crate::phase::DEFAULT_THRESHOLD_BITS,
            r.settings().min_peak_distance == 20,
            r.settings().kernel == crate::phase::SmoothingKernel::Uniform,
            r.fresh(),
    {
        VarianceInflectionDetector::new(VarianceConfig::default())
    }

    /// Forgets everything but the settings.
    pub fn reset(&mut self)
        ensures
            final(self).settings() == old(self).settings(),
            final(self).fresh(),
    {
        self.observations.clear();
        self.variance_history.clear();
        self.smoothed_variance.clear();
        self.d1_variance.clear();
        self.d2_variance.clear();
        self.baseline_d2_mean = Scalar { bits: ZERO_BITS };
        self.baseline_d2_std = Scalar { bits: ONE_BITS };
        self.baseline_samples = 0;
        self.cooldown = 0;
        self.count = 0;
        self.pending = Pending::Nothing;
    }

    /// Observations seen since the last reset.
    pub fn count(&self) -> (r: usize)
        ensures
            r == self.total(),
    {
        self.count
    }

    /// The settings.
    pub fn config(&self) -> (r: &VarianceConfig)
        ensures
            *r == self.settings(),
    {
        &self.config
    }

    /// The number that the detector waits for.
    pub fn pending(&self) -> (r: Pending)
        ensures
            r == self.awaited(),
    {
        self.pending
    }

    /// How many inflections the baseline has seen.
    pub fn baseline_count(&self) -> (r: usize)
        ensures
            r == self.baseline_samples(),
    {
        self.baseline_samples
    }

    /// Updates left of a cooldown.
    pub fn cooldown_left(&self) -> (r: usize)
        ensures
            r == self.cooldown(),
    {
        self.cooldown
    }

    /// The newest rolling variance, or zero before the first.
    pub fn current_variance(&self) -> (r: Scalar)
        ensures
            r == last_or_zero(self.variances()),
    {
        match newest(&self.variance_history) {
            Some(v) => v,
            None => Scalar { bits: ZERO_BITS },
        }
    }

    /// The newest trend, or zero before the first.
    pub fn variance_trend(&self) -> (r: Scalar)
        ensures
            r == last_or_zero(self.trends()),
    {
        match newest(&self.d1_variance) {
            Some(v) => v,
            None => Scalar { bits: ZERO_BITS },
        }
    }

    /// The newest inflection, or zero before the first.
    pub fn latest_inflection(&self) -> (r: Scalar)
        ensures
            r == last_or_zero(self.inflections()),
    {
        match newest(&self.d2_variance) {
            Some(v) => v,
            None => Scalar { bits: ZERO_BITS },
        }
    }

    /// The baseline: mean and deviation.
    pub fn baseline(&self) -> (r: (Scalar, Scalar))
        ensures
            r.0 == self.baseline_mean(),
            r.1 == self.baseline_std(),
    {
        (self.baseline_d2_mean, self.baseline_d2_std)
    }

    /// What the score is computed from: the magnitude of the newest
    /// inflection, the baseline mean and the baseline deviation. Nothing
    /// where the deviation is not above its floor: the score is then zero.
    pub fn score_inputs(&self) -> (r: Option<(Scalar, Scalar, Scalar)>)
        ensures
            self.baseline_std().gt(Scalar { bits: BASELINE_FLOOR_BITS }) ==> r == Some(
                (
                    last_or_zero(self.inflections()).magnitude_value(),
                    self.baseline_mean(),
                    self.baseline_std(),
                ),
            ),
            !self.baseline_std().gt(Scalar { bits: BASELINE_FLOOR_BITS }) ==> r is None,
    {
        if self.baseline_d2_std.is_gt(Scalar { bits: BASELINE_FLOOR_BITS }) {
            Some((self.latest_inflection().abs(), self.baseline_d2_mean, self.baseline_d2_std))
        } else {
            None
        }
    }

    /// First stage: counts and stores an observation, and lets a running
    /// cooldown run down by one. Hands back the newest window, newest first,
    /// once it is full: its variance is due.
    pub fn observe(&mut self, value: Scalar) -> (window: Option<Vec<Scalar>>)
        requires
            old(self).awaited() == Pending::Nothing,
            old(self).total() < usize::MAX,
        ensures
            observed(*old(self), *final(self), value, window),
    {
        self.count = self.count + 1;
        push_ring(&mut self.observations, self.config.window_size, 3, value);
        if self.cooldown > 0 {
            self.cooldown = self.cooldown - 1;
        }
        if self.observations.len() >= self.config.window_size {
            self.pending = Pending::Variance;
            Some(recent(&self.observations, self.config.window_size))
        } else {
            None
        }
    }

    /// Second stage: stores a rolling variance. Hands back the variances to
    /// smooth, newest first: as many as the smoothing window asks for and
    /// the history holds. With a smoothing window of zero that is none, and
    /// the variance itself counts as smoothed.
    pub fn record_variance(&mut self, variance: Scalar) -> (window: Vec<Scalar>)
        requires
            old(self).awaited() == Pending::Variance,
        ensures
            variance_recorded(*old(self), *final(self), variance),
            window@ == newest_first(
                final(self).variances(),
                final(self).settings().smoothing_window as int,
            ),
    {
        push_ring(&mut self.variance_history, self.config.window_size, 2, variance);
        self.pending = Pending::Smoothed;
        recent(&self.variance_history, self.config.smoothing_window)
    }

    /// Third stage: stores a smoothed variance. Hands back the two newest,
    /// the newest first, once there are two: their difference is the trend.
    pub fn record_smoothed(&mut self, smoothed: Scalar) -> (pair: Option<(Scalar, Scalar)>)
        requires
            old(self).awaited() == Pending::Smoothed,
        ensures
            smoothed_recorded(*old(self), *final(self), smoothed),
            pair == last_pair(final(self).smoothed()),
    {
        push_ring(&mut self.smoothed_variance, self.config.window_size, 2, smoothed);
        let pair = newest_pair(&self.smoothed_variance);
        self.pending = if pair.is_some() {
            Pending::Trend
        } else {
            Pending::Nothing
        };
        pair
    }

    /// Fourth stage: stores a trend. Hands back the two newest, the newest
    /// first, once there are two: their difference is the inflection.
    pub fn record_trend(&mut self, trend: Scalar) -> (pair: Option<(Scalar, Scalar)>)
        requires
            old(self).awaited() == Pending::Trend,
        ensures
            trend_recorded(*old(self), *final(self), trend),
            pair == last_pair(final(self).trends()),
    {
        push_ring(&mut self.d1_variance, self.config.window_size, 2, trend);
        let pair = newest_pair(&self.d1_variance);
        self.pending = if pair.is_some() {
            Pending::Inflection
        } else {
            Pending::Nothing
        };
        pair
    }

    /// Fifth stage: stores an inflection and the baseline that was updated
    /// with its magnitude. The deviation is kept at its floor or above.
    pub fn record_inflection(&mut self, inflection: Scalar, mean: Scalar, raw_std: Scalar)
        requires
            old(self).awaited() == Pending::Inflection,
            old(self).baseline_samples() < usize::MAX,
        ensures
            inflection_recorded(*old(self), *final(self), inflection, mean, raw_std),
    {
        push_ring(&mut self.d2_variance, self.config.window_size, 2, inflection);
        self.pending = Pending::Nothing;
        self.baseline_samples = self.baseline_samples + 1;
        self.baseline_d2_mean = mean;
        self.baseline_d2_std = raw_std.max(Scalar { bits: BASELINE_FLOOR_BITS });
    }

    /// The phase for a score.
    pub fn phase(&self, score: Score) -> (r: Phase)
        ensures
            r == self.phase_for(score),
    {
        classify(
            self.count,
            self.config.window_size,
            self.cooldown,
            score.z,
            self.config.threshold,
            score.critical_level,
        )
    }

    /// The reading for a score.
    pub fn compute_result(&self, score: Score) -> (r: InflectionResult)
        ensures
            r == self.result_for(score),
    {
        InflectionResult {
            phase: self.phase(score),
            confidence: confidence(self.count, self.config.window_size, score.confidence_ratio),
            inflection_magnitude: score.z,
            current_variance: self.current_variance(),
            variance_trend: self.variance_trend(),
            d2_variance: self.latest_inflection(),
        }
    }

    /// Commits a transition: where the phase for the score is `Critical`,
    /// arms a cooldown of `min_peak_distance` updates and hands back the
    /// reading that led to it. Nothing else ever arms a cooldown.
    pub fn check_transition(&mut self, score: Score) -> (r: Option<InflectionResult>)
        ensures
            final(self).settings() == old(self).settings(),
            final(self).observations() == old(self).observations(),
            final(self).variances() == old(self).variances(),
            final(self).smoothed() == old(self).smoothed(),
            final(self).trends() == old(self).trends(),
            final(self).inflections() == old(self).inflections(),
            final(self).baseline_mean() == old(self).baseline_mean(),
            final(self).baseline_std() == old(self).baseline_std(),
            final(self).baseline_samples() == old(self).baseline_samples(),
            final(self).total() == old(self).total(),
            final(self).awaited() == old(self).awaited(),
            old(self).phase_for(score) == Phase::Critical ==> r == Some(old(self).result_for(score))
                && final(self).cooldown() == old(self).settings().min_peak_distance,
            old(self).phase_for(score) != Phase::Critical ==> r is None && final(self).cooldown()
                == old(self).cooldown(),
    {
        let result = self.compute_result(score);
        if result.phase == Phase::Critical && self.cooldown == 0 {
            self.cooldown = self.config.min_peak_distance;
            Some(result)
        } else {
            None
        }
    }
}

/// No stage lets a history outgrow its capacity: a detector that is within
/// capacity stays so through every stage, and a fresh one is.
pub proof fn lemma_histories_bounded(
    before: VarianceInflectionDetector,
    after: VarianceInflectionDetector,
    value: Scalar,
    mean: Scalar,
    raw_std: Scalar,
    window: Option<Vec<Scalar>>,
)
    requires
        within_capacity(before) || before.fresh(),
        observed(before, after, value, window) || variance_recorded(before, after, value)
            || smoothed_recorded(before, after, value) || trend_recorded(before, after, value)
            || inflection_recorded(before, after, value, mean, raw_std),
    ensures
        within_capacity(after),
{
}

/// The baseline deviation never falls below its floor, whatever deviation
/// the arithmetic hands in.
pub proof fn lemma_baseline_floor(
    before: VarianceInflectionDetector,
    after: VarianceInflectionDetector,
    inflection: Scalar,
    mean: Scalar,
    raw_std: Scalar,
)
    requires
        inflection_recorded(before, after, inflection, mean, raw_std),
    ensures
        after.baseline_std().ge(Scalar { bits: BASELINE_FLOOR_BITS }),
        !after.baseline_std().nan(),
{
}

/// Taking in an observation never arms a cooldown: a running one runs
/// down by one, and none stays none.
pub proof fn lemma_update_never_arms(
    before: VarianceInflectionDetector,
    after: VarianceInflectionDetector,
    value: Scalar,
    window: Option<Vec<Scalar>>,
)
    requires
        observed(before, after, value, window),
    ensures
        after.cooldown() <= before.cooldown(),
        before.cooldown() == 0 ==> after.cooldown() == 0,
        after.observations().len() >= 1,
        after.observations().last() == value,
{
}

/// A detector that is warming up reports `Stable` with no confidence,
/// whatever the score.
pub proof fn lemma_detector_warm_up(detector: VarianceInflectionDetector, score: Score)
    requires
        detector.total() < 2 * detector.settings().window_size,
    ensures
        detector.phase_for(score) == Phase::Stable,
        detector.result_for(score).phase == Phase::Stable,
        detector.result_for(score).confidence == (Scalar { bits: ZERO_BITS }),
{
}

/// While a cooldown runs past the warm-up, the detector reports
/// `Transitioning`, and a transition cannot be committed again.
pub proof fn lemma_detector_cooldown(detector: VarianceInflectionDetector, score: Score)
    requires
        detector.total() >= 2 * detector.settings().window_size,
        detector.cooldown() > 0,
    ensures
        detector.phase_for(score) == Phase::Transitioning,
{
}

} // verus!
