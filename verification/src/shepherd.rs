//! Pair-level early warning: one detector per pair of entities, fed with
//! the pair's conflict potential, and the alerts that follow from it.
//!
//! One check of a pair runs in this order: `record_potential` stores the
//! pair's potential, `ensure_tracker` finds or makes the pair's tracker,
//! `observe` feeds the potential to it, the detector's remaining stages run
//! on `detector_mut`, and `conclude` turns the reading into an alert.

use vstd::prelude::*;
use crate::alert::{NucleationAlert, alert_level_of, compute_alert_level, TREND_SPAN};
use crate::detector::{Pending, Score, VarianceInflectionDetector};
use crate::dyad::{canonical, dyad_key, lemma_canonical_ordered};
use crate::error::DivergenceError;
use crate::grievance::Grievance;
use crate::model::{
    CompressionDynamicsModel,
    SchemeUpdate,
    DEFAULT_ALPHA_BITS,
    DEFAULT_BETA_BITS,
    DEFAULT_GAMMA_BITS,
    DEFAULT_LEARNING_RATE_BITS,
};
use crate::phase::VarianceConfig;
use crate::potential::{ConflictPotential, DivergenceMetrics};
use crate::scalar::Scalar;
use crate::scheme::CompressionScheme;
use crate::window::{trail_pushed, push_trail};

verus! {

/// How many potentials a tracker retains.
pub const PHI_HISTORY_LIMIT: usize = 1000;

/// A conflict potential with the time it was computed at.
#[derive(Clone, Copy, Debug)]
pub struct PhiSample {
    pub timestamp: i64,
    pub phi: Scalar,
}

/// The two potentials whose difference is the trend: the newest and the
/// oldest of the newest ten. Nothing before there are two.
pub open spec fn trend_pair(samples: Seq<PhiSample>) -> Option<(Scalar, Scalar)> {
    if samples.len() < 2 {
        None
    } else if samples.len() < TREND_SPAN {
        Some((samples[samples.len() - 1].phi, samples[0].phi))
    } else {
        Some((samples[samples.len() - 1].phi, samples[samples.len() - TREND_SPAN].phi))
    }
}

/// What is kept about one pair of entities.
#[derive(Debug)]
pub struct DyadTracker {
    actor_a: String,
    actor_b: String,
    detector: VarianceInflectionDetector,
    phi_history: Vec<PhiSample>,
    last_alert: Option<NucleationAlert>,
}

impl DyadTracker {
    /// The lower identifier of the pair.
    pub closed spec fn first(&self) -> Seq<char> {
        self.actor_a@
    }

    /// The higher identifier of the pair.
    pub closed spec fn second(&self) -> Seq<char> {
        self.actor_b@
    }

    /// The detector on the pair's potential.
    pub closed spec fn sensor(&self) -> VarianceInflectionDetector {
        self.detector
    }

    /// The potentials fed so far, oldest first: the newest thousand.
    pub closed spec fn samples(&self) -> Seq<PhiSample> {
        self.phi_history@
    }

    /// The alert that the last check computed, of whatever level.
    pub closed spec fn latest(&self) -> Option<NucleationAlert> {
        self.last_alert
    }

    /// The pair's key.
    pub open spec fn key(&self) -> (Seq<char>, Seq<char>) {
        (self.first(), self.second())
    }

    /// A tracker that has seen nothing.
    pub open spec fn unused(&self) -> bool {
        &&& self.sensor().fresh()
        &&& self.samples().len() == 0
        &&& self.latest() is None
    }

    fn new(actor_a: String, actor_b: String, config: VarianceConfig) -> (r: DyadTracker)
        ensures
            r.first() == actor_a@,
            r.second() == actor_b@,
            r.sensor().settings() == config,
            r.unused(),
    {
        DyadTracker {
            actor_a,
            actor_b,
            detector: VarianceInflectionDetector::new(config),
            phi_history: Vec::new(),
            last_alert: None,
        }
    }

    /// The lower identifier of the pair.
    pub fn actor_a(&self) -> (r: &str)
        ensures
            r@ == self.first(),
    {
        self.actor_a.as_str()
    }

    /// The higher identifier of the pair.
    pub fn actor_b(&self) -> (r: &str)
        ensures
            r@ == self.second(),
    {
        self.actor_b.as_str()
    }

    /// The detector on the pair's potential.
    pub fn detector(&self) -> (r: &VarianceInflectionDetector)
        ensures
            *r == self.sensor(),
    {
        &self.detector
    }

    /// The potentials fed so far, oldest first.
    pub fn phi_history(&self) -> (r: &Vec<PhiSample>)
        ensures
            r@ == self.samples(),
    {
        &self.phi_history
    }

    /// The alert that the last check computed.
    pub fn last_alert(&self) -> (r: Option<&NucleationAlert>)
        ensures
            self.latest() is None ==> r is None,
            self.latest() is Some ==> r is Some && *r->0 == self.latest()->0,
    {
        match &self.last_alert {
            Some(alert) => Some(alert),
            None => None,
        }
    }

    /// The two potentials whose difference is the trend.
    pub fn trend_endpoints(&self) -> (r: Option<(Scalar, Scalar)>)
        ensures
            r == trend_pair(self.samples()),
    {
        let len: usize = self.phi_history.len();
        if len < 2 {
            None
        } else if len < TREND_SPAN {
            Some((self.phi_history[len - 1].phi, self.phi_history[0].phi))
        } else {
            Some((self.phi_history[len - 1].phi, self.phi_history[len - TREND_SPAN].phi))
        }
    }
}

/// No key occurs twice, and each key holds its two identifiers in order.
pub open spec fn keyed(trackers: Seq<DyadTracker>) -> bool {
    &&& forall|i: int, j: int|
        0 <= i < j < trackers.len() ==> (#[trigger] trackers[i]).key() != (
        #[trigger] trackers[j]).key()
    &&& forall|i: int|
        0 <= i < trackers.len() ==> canonical(
            (#[trigger] trackers[i]).first(),
            trackers[i].second(),
        ) == trackers[i].key()
}

/// Every alert is one that is handed out: `Yellow` or above.
pub open spec fn all_reportable(alerts: Seq<NucleationAlert>) -> bool {
    forall|i: int| 0 <= i < alerts.len() ==> (#[trigger] alerts[i]).alert_level.reportable()
}

/// Whether a tracker is kept under this key.
pub open spec fn tracks(trackers: Seq<DyadTracker>, key: (Seq<char>, Seq<char>)) -> bool {
    exists|i: int| 0 <= i < trackers.len() && (#[trigger] trackers[i]).key() == key
}

/// Whether `i` is the first place that holds a tracker under this key.
pub open spec fn is_first_place(
    trackers: Seq<DyadTracker>,
    key: (Seq<char>, Seq<char>),
    i: int,
) -> bool {
    &&& 0 <= i < trackers.len()
    &&& trackers[i].key() == key
    &&& forall|j: int| 0 <= j < i ==> (#[trigger] trackers[j]).key() != key
}

/// The first place that holds a tracker under this key, where one is
/// kept under it.
pub open spec fn first_place(trackers: Seq<DyadTracker>, key: (Seq<char>, Seq<char>)) -> int {
    choose|i: int| is_first_place(trackers, key, i)
}

/// A key has one first place.
pub proof fn lemma_first_place(trackers: Seq<DyadTracker>, key: (Seq<char>, Seq<char>), i: int)
    requires
        is_first_place(trackers, key, i),
    ensures
        first_place(trackers, key) == i,
        tracks(trackers, key),
{
    let c = first_place(trackers, key);
    assert(is_first_place(trackers, key, c));
    if c < i {
        assert(trackers[c].key() != key);
    } else if i < c {
        assert(trackers[i].key() != key);
    }
}

/// The alert that a check of a tracker computes from a score, the trend
/// and a message: about the tracker's pair, at the potential and time of
/// its newest sample, at the level that the rule assigns.
pub open spec fn is_finding(
    alert: NucleationAlert,
    tracker: DyadTracker,
    score: Score,
    phi_trend: Scalar,
    message: Seq<char>,
) -> bool {
    let sample = tracker.samples().last();
    let reading = tracker.sensor().result_for(score);
    &&& alert.actor_a@ == tracker.first()
    &&& alert.actor_b@ == tracker.second()
    &&& alert.alert_level == alert_level_of(reading.phase, sample.phi, phi_trend)
    &&& alert.phase == reading.phase
    &&& alert.phi == sample.phi
    &&& alert.phi_trend == phi_trend
    &&& alert.confidence == reading.confidence
    &&& alert.timestamp == sample.timestamp
    &&& alert.message@ == message
}

/// The early-warning system: a model and a tracker for each pair that was
/// checked.
#[derive(Debug)]
pub struct ShepherdDynamics {
    model: CompressionDynamicsModel,
    dyad_trackers: Vec<DyadTracker>,
    variance_config: VarianceConfig,
    current_timestamp: i64,
    alert_history: Vec<NucleationAlert>,
}

impl ShepherdDynamics {
    /// The model.
    pub closed spec fn world(&self) -> CompressionDynamicsModel {
        self.model
    }

    /// The trackers, in the order in which their pairs were first checked.
    pub closed spec fn trackers(&self) -> Seq<DyadTracker> {
        self.dyad_trackers@
    }

    /// The settings that new detectors get.
    pub closed spec fn variance_settings(&self) -> VarianceConfig {
        self.variance_config
    }

    /// The time of the newest update.
    pub closed spec fn clock(&self) -> i64 {
        self.current_timestamp
    }

    /// The alerts handed out so far, oldest first.
    pub closed spec fn alerts(&self) -> Seq<NucleationAlert> {
        self.alert_history@
    }

    /// The model's registry and the trackers' keys are in order, and no
    /// alert in the history is below `Yellow`.
    pub open spec fn wf(&self) -> bool {
        &&& self.world().wf()
        &&& keyed(self.trackers())
        &&& all_reportable(self.alerts())
    }

    /// A system over `n_categories` categories with the default settings.
    pub fn new(n_categories: usize) -> (r: ShepherdDynamics)
        ensures
            r.wf(),
            r.world().empty(),
            r.world().settings().n_categories == n_categories,
            r.world().settings().learning_rate.bits == DEFAULT_LEARNING_RATE_BITS,
            r.world().settings().escalation_alpha.bits == DEFAULT_ALPHA_BITS,
            r.world().settings().escalation_beta.bits == DEFAULT_BETA_BITS,
            r.world().settings().escalation_gamma.bits == DEFAULT_GAMMA_BITS,
            r.world().settings().grievance_window == 30,
            r.trackers().len() == 0,
            r.alerts().len() == 0,
            r.clock() == 0,
            r.variance_settings().window_size == 40,
            r.variance_settings().smoothing_window == 15,
            r.variance_settings().threshold.bits == crate::phase::DEFAULT_THRESHOLD_BITS,
            r.variance_settings().min_peak_distance == 20,
            r.variance_settings().kernel == crate::phase::SmoothingKernel::Uniform,
    {
        ShepherdDynamics {
            model: CompressionDynamicsModel::new(n_categories),
            dyad_trackers: Vec::new(),
            variance_config: VarianceConfig::default(),
            current_timestamp: 0,
            alert_history: Vec::new(),
        }
    }

    /// The system with other settings for the detectors made from now on.
    pub fn with_variance_config(self, config: VarianceConfig) -> (r: ShepherdDynamics)
        ensures
            r.variance_settings() == config,
            r.world() == self.world(),
            r.trackers() == self.trackers(),
            r.alerts() == self.alerts(),
            r.clock() == self.clock(),
    {
        let mut r = self;
        r.variance_config = config;
        r
    }

    /// The system with another learning rate.
    pub fn with_learning_rate(self, rate: Scalar) -> (r: ShepherdDynamics)
        ensures
            r.world().settings() == (
            crate::model::ModelConfig { learning_rate: rate, ..self.world().settings() }),
            r.world().entries() == self.world().entries(),
            r.world().history() == self.world().history(),
            r.world().potentials() == self.world().potentials(),
            r.variance_settings() == self.variance_settings(),
            r.trackers() == self.trackers(),
            r.alerts() == self.alerts(),
            r.clock() == self.clock(),
    {
        let ShepherdDynamics {
            model,
            dyad_trackers,
            variance_config,
            current_timestamp,
            alert_history,
        } = self;
        ShepherdDynamics {
            model: model.with_learning_rate(rate),
            dyad_trackers,
            variance_config,
            current_timestamp,
            alert_history,
        }
    }

    /// Whether the system is in order.
    pub fn is_well_formed(&self) -> (r: bool)
        ensures
            r == self.wf(),
    {
        if !self.model.is_well_formed() {
            return false;
        }
        let mut a: usize = 0;
        while a < self.alert_history.len()
            invariant
                a <= self.alert_history@.len(),
                self.world().wf(),
                forall|h: int|
                    0 <= h < a ==> (#[trigger] self.alert_history@[h]).alert_level.reportable(),
            decreases self.alert_history@.len() - a,
        {
            if !self.alert_history[a].alert_level.is_reportable() {
                return false;
            }
            a += 1;
        }
        let n: usize = self.dyad_trackers.len();
        let mut i: usize = 0;
        while i < n
            invariant
                i <= n,
                n == self.dyad_trackers@.len(),
                self.world().wf(),
                all_reportable(self.alerts()),
                forall|p: int, q: int|
                    0 <= p < q < n && p < i ==> (#[trigger] self.dyad_trackers@[p]).key() != (
                    #[trigger] self.dyad_trackers@[q]).key(),
                forall|p: int|
                    0 <= p < i ==> canonical(
                        (#[trigger] self.dyad_trackers@[p]).first(),
                        self.dyad_trackers@[p].second(),
                    ) == self.dyad_trackers@[p].key(),
            decreases n - i,
        {
            let in_order = crate::dyad::precedes(
                self.dyad_trackers[i].actor_a.as_str(),
                self.dyad_trackers[i].actor_b.as_str(),
            );
            if !in_order && self.dyad_trackers[i].actor_a != self.dyad_trackers[i].actor_b {
                return false;
            }
            let mut j: usize = i + 1;
            while j < n
                invariant
                    i < j <= n,
                    n == self.dyad_trackers@.len(),
                    forall|q: int|
                        i < q < j ==> self.dyad_trackers@[i as int].key() != (
                        #[trigger] self.dyad_trackers@[q]).key(),
                decreases n - j,
            {
                if self.dyad_trackers[i].actor_a == self.dyad_trackers[j].actor_a
                    && self.dyad_trackers[i].actor_b == self.dyad_trackers[j].actor_b {
                    return false;
                }
                j += 1;
            }
            i += 1;
        }
        true
    }

    /// The model.
    pub fn model(&self) -> (r: &CompressionDynamicsModel)
        ensures
            *r == self.world(),
    {
        &self.model
    }

    /// Registers an entity with its prepared distribution, under default
    /// names; see the model.
    pub fn register_actor(&mut self, actor_id: &str, distribution: Vec<Scalar>)
        requires
            old(self).wf(),
        ensures
            final(self).wf(),
            final(self).world().settings() == old(self).world().settings(),
            final(self).world().history() == old(self).world().history(),
            final(self).world().potentials() == old(self).world().potentials(),
            final(self).world().is_registered(actor_id@),
            crate::model::enrolled(
                old(self).world().entries(),
                final(self).world().entries(),
                actor_id@,
                distribution@,
                None,
            ),
            final(self).trackers() == old(self).trackers(),
            final(self).alerts() == old(self).alerts(),
            final(self).clock() == old(self).clock(),
            final(self).variance_settings() == old(self).variance_settings(),
    {
        self.model.register_actor(actor_id, distribution, None);
    }

    /// Takes in an observation for an entity, as the model's
    /// `update_scheme` does, and sets the clock. Where the update is
    /// accepted, hands back the entities to check the updated one against:
    /// every other registered entity, in the order of their registration.
    pub fn update_actor(
        &mut self,
        actor_id: &str,
        observation_len: usize,
        prior: Vec<Scalar>,
        update: SchemeUpdate,
        timestamp: i64,
    ) -> (r: Result<Vec<String>, DivergenceError>)
        requires
            old(self).wf(),
        ensures
            final(self).wf(),
            final(self).clock() == timestamp,
            final(self).trackers() == old(self).trackers(),
            final(self).alerts() == old(self).alerts(),
            final(self).variance_settings() == old(self).variance_settings(),
            crate::model::update_applied(
                old(self).world(),
                final(self).world(),
                actor_id@,
                observation_len,
                prior@,
                update,
                Some(timestamp),
                timestamp,
                match r {
                    Ok(_) => Ok(()),
                    Err(e) => Err(e),
                },
            ),
            r is Ok ==> crate::model::strings_view(r->Ok_0@) == crate::model::others(
                final(self).world().ids(),
                actor_id@,
            ),
    {
        self.current_timestamp = timestamp;
        match self.model.update_scheme(
            actor_id,
            observation_len,
            prior,
            update,
            Some(timestamp),
            timestamp,
        ) {
            Err(e) => Err(e),
            Ok(()) => Ok(self.model.counterparts(actor_id)),
        }
    }

    /// Records the conflict potential of a pair; see the model's
    /// `compute_conflict_potential`.
    pub fn conflict_potential(
        &mut self,
        actor_a: &str,
        actor_b: &str,
        metrics: DivergenceMetrics,
    ) -> (r: Result<ConflictPotential, DivergenceError>)
        requires
            old(self).wf(),
        ensures
            final(self).wf(),
            final(self).trackers() == old(self).trackers(),
            final(self).alerts() == old(self).alerts(),
            final(self).clock() == old(self).clock(),
            final(self).variance_settings() == old(self).variance_settings(),
            crate::model::potential_recorded(
                old(self).world(),
                final(self).world(),
                actor_a@,
                actor_b@,
                metrics,
                r,
            ),
    {
        self.model.compute_conflict_potential(actor_a, actor_b, metrics)
    }

    /// Where the tracker of the pair of `a` and `b` stands, asked in
    /// either order.
    pub fn find_tracker(&self, actor_a: &str, actor_b: &str) -> (r: Option<usize>)
        ensures
            r is Some ==> r->0 < self.trackers().len() && self.trackers()[r->0 as int].key()
                == canonical(actor_a@, actor_b@) && forall|j: int|
                0 <= j < r->0 ==> (#[trigger] self.trackers()[j]).key() != canonical(
                    actor_a@,
                    actor_b@,
                ),
            r is None ==> !tracks(self.trackers(), canonical(actor_a@, actor_b@)),
    {
        let key = dyad_key(actor_a, actor_b);
        let mut i: usize = 0;
        while i < self.dyad_trackers.len()
            invariant
                i <= self.dyad_trackers@.len(),
                (key.0@, key.1@) == canonical(actor_a@, actor_b@),
                forall|j: int|
                    0 <= j < i ==> (#[trigger] self.dyad_trackers@[j]).key() != canonical(
                        actor_a@,
                        actor_b@,
                    ),
            decreases self.dyad_trackers@.len() - i,
        {
            if self.dyad_trackers[i].actor_a == key.0 && self.dyad_trackers[i].actor_b == key.1 {
                return Some(i);
            }
            i += 1;
        }
        None
    }

    /// Finds the tracker of the pair of `a` and `b`, or makes it: under the
    /// pair's key, with a detector of the current settings. Either order
    /// of the two finds the same tracker.
    pub fn ensure_tracker(&mut self, actor_a: &str, actor_b: &str) -> (index: usize)
        requires
            old(self).wf(),
        ensures
            final(self).wf(),
            final(self).world() == old(self).world(),
            final(self).alerts() == old(self).alerts(),
            final(self).clock() == old(self).clock(),
            final(self).variance_settings() == old(self).variance_settings(),
            index < final(self).trackers().len(),
            final(self).trackers()[index as int].key() == canonical(actor_a@, actor_b@),
            tracks(old(self).trackers(), canonical(actor_a@, actor_b@)) ==> final(self).trackers()
                == old(self).trackers(),
            !tracks(old(self).trackers(), canonical(actor_a@, actor_b@)) ==> {
                &&& index == old(self).trackers().len()
                &&& final(self).trackers().len() == old(self).trackers().len() + 1
                &&& forall|j: int|
                    0 <= j < old(self).trackers().len() ==> #[trigger] final(self).trackers()[j]
                        == old(self).trackers()[j]
                &&& final(self).trackers()[index as int].unused()
                &&& final(self).trackers()[index as int].sensor().settings() == old(self).variance_settings()
            },
    {
        match self.find_tracker(actor_a, actor_b) {
            Some(i) => i,
            None => {
                let key = dyad_key(actor_a, actor_b);
                proof {
                    lemma_canonical_ordered(actor_a@, actor_b@);
                }
                let tracker = DyadTracker::new(key.0, key.1, self.variance_config);
                self.dyad_trackers.push(tracker);
                self.dyad_trackers.len() - 1
            },
        }
    }

    /// The tracker at a place.
    pub fn tracker(&self, index: usize) -> (r: &DyadTracker)
        requires
            index < self.trackers().len(),
        ensures
            *r == self.trackers()[index as int],
    {
        &self.dyad_trackers[index]
    }

    /// How many pairs are tracked.
    pub fn tracker_count(&self) -> (r: usize)
        ensures
            r == self.trackers().len(),
    {
        self.dyad_trackers.len()
    }

    /// Feeds a pair's potential to its tracker: the sample enters the
    /// tracker's history, which retains the newest thousand, and the
    /// detector's first stage runs on the potential.
    pub fn observe(&mut self, index: usize, phi: Scalar, timestamp: i64) -> (window: Option<
        Vec<Scalar>,
    >)
        requires
            index < old(self).trackers().len(),
            old(self).trackers()[index as int].sensor().awaited() == Pending::Nothing,
            old(self).trackers()[index as int].sensor().total() < usize::MAX,
        ensures
            final(self).world() == old(self).world(),
            final(self).alerts() == old(self).alerts(),
            final(self).clock() == old(self).clock(),
            final(self).variance_settings() == old(self).variance_settings(),
            final(self).trackers().len() == old(self).trackers().len(),
            forall|j: int|
                0 <= j < old(self).trackers().len() && j != index ==> #[trigger] final(self).trackers()[j] == old(self).trackers()[j],
            ({
                let before = old(self).trackers()[index as int];
                let after = final(self).trackers()[index as int];
                &&& after.key() == before.key()
                &&& after.latest() == before.latest()
                &&& after.samples() == trail_pushed(
                    before.samples(),
                    PHI_HISTORY_LIMIT as int,
                    PhiSample { timestamp, phi },
                )
                &&& crate::detector::observed(before.sensor(), after.sensor(), phi, window)
            }),
            old(self).wf() ==> final(self).wf(),
    {
        let tracker = &mut self.dyad_trackers[index];
        push_trail(&mut tracker.phi_history, PHI_HISTORY_LIMIT, PhiSample { timestamp, phi });
        tracker.detector.observe(phi)
    }

    /// The detector of a tracker, to run its remaining stages on.
    pub fn detector_mut(&mut self, index: usize) -> (r: &mut VarianceInflectionDetector)
        requires
            index < old(self).trackers().len(),
        ensures
            *r == old(self).trackers()[index as int].sensor(),
            final(self).world() == old(self).world(),
            final(self).alerts() == old(self).alerts(),
            final(self).clock() == old(self).clock(),
            final(self).variance_settings() == old(self).variance_settings(),
            final(self).trackers().len() == old(self).trackers().len(),
            final(self).trackers()[index as int].sensor() == *final(r),
            final(self).trackers()[index as int].key() == old(self).trackers()[index as int].key(),
            final(self).trackers()[index as int].samples() == old(self).trackers()[index as int].samples(),
            final(self).trackers()[index as int].latest() == old(self).trackers()[index as int].latest(),
            forall|j: int|
                0 <= j < old(self).trackers().len() && j != index ==> #[trigger] final(self).trackers()[j] == old(self).trackers()[j],
    {
        &mut self.dyad_trackers[index].detector
    }

    /// Ends a check of a pair: computes the alert from the detector's
    /// reading for the score, the newest potential and its trend. The alert
    /// becomes the tracker's last one, whatever its level. From `Yellow` up
    /// it is handed back and enters the alert history; a `Green` one is not
    /// handed back. A tracker that was fed nothing concludes nothing.
    pub fn conclude(&mut self, index: usize, score: Score, phi_trend: Scalar, message: String) -> (r:
        Option<NucleationAlert>)
        requires
            index < old(self).trackers().len(),
        ensures
            final(self).world() == old(self).world(),
            final(self).clock() == old(self).clock(),
            final(self).variance_settings() == old(self).variance_settings(),
            final(self).trackers().len() == old(self).trackers().len(),
            forall|j: int|
                0 <= j < old(self).trackers().len() && j != index ==> #[trigger] final(self).trackers()[j] == old(self).trackers()[j],
            ({
                let before = old(self).trackers()[index as int];
                let after = final(self).trackers()[index as int];
                &&& after.key() == before.key()
                &&& after.samples() == before.samples()
                &&& after.sensor() == before.sensor()
                &&& before.samples().len() == 0 ==> r is None && after.latest() == before.latest()
                    && final(self).alerts() == old(self).alerts()
                &&& before.samples().len() > 0 ==> {
                    let level = alert_level_of(
                        before.sensor().result_for(score).phase,
                        before.samples().last().phi,
                        phi_trend,
                    );
                    &&& after.latest() is Some
                    &&& is_finding(after.latest()->0, before, score, phi_trend, message@)
                    &&& after.latest()->0.alert_level == level
                    &&& level.reportable() ==> r == after.latest() && final(self).alerts() == old(self).alerts().push(r->0)
                    &&& !level.reportable() ==> r is None && final(self).alerts() == old(self).alerts()
                }
            }),
            old(self).wf() ==> final(self).wf(),
    {
        let len: usize = self.dyad_trackers[index].phi_history.len();
        if len == 0 {
            return None;
        }
        let sample: PhiSample = self.dyad_trackers[index].phi_history[len - 1];
        let reading = self.dyad_trackers[index].detector.compute_result(score);
        let level = compute_alert_level(reading.phase, sample.phi, phi_trend);
        let alert = NucleationAlert {
            actor_a: self.dyad_trackers[index].actor_a.clone(),
            actor_b: self.dyad_trackers[index].actor_b.clone(),
            alert_level: level,
            phase: reading.phase,
            phi: sample.phi,
            phi_trend,
            confidence: reading.confidence,
            timestamp: sample.timestamp,
            message,
        };
        let out = if level.is_reportable() {
            self.alert_history.push(alert.duplicate());
            Some(alert.duplicate())
        } else {
            None
        };
        let tracker = &mut self.dyad_trackers[index];
        tracker.last_alert = Some(alert);
        out
    }

    /// The potentials fed to the tracker of a pair, asked in either order.
    pub fn phi_history(&self, actor_a: &str, actor_b: &str) -> (r: Option<&Vec<PhiSample>>)
        ensures
            r is Some ==> exists|i: int|
                0 <= i < self.trackers().len() && (#[trigger] self.trackers()[i]).key()
                    == canonical(actor_a@, actor_b@) && r->0@ == self.trackers()[i].samples(),
            r is None ==> !tracks(self.trackers(), canonical(actor_a@, actor_b@)),
    {
        match self.find_tracker(actor_a, actor_b) {
            Some(i) => Some(&self.dyad_trackers[i].phi_history),
            None => None,
        }
    }

    /// The last alert of a pair, asked in either order: the alert that the
    /// newest check of the pair computed, of whatever level. None for a
    /// pair that has no tracker, and for one whose tracker has concluded
    /// no check yet.
    pub fn last_alert(&self, actor_a: &str, actor_b: &str) -> (r: Option<&NucleationAlert>)
        ensures
            !tracks(self.trackers(), canonical(actor_a@, actor_b@)) ==> r is None,
            tracks(self.trackers(), canonical(actor_a@, actor_b@)) ==> {
                let tracker = self.trackers()[first_place(
                    self.trackers(),
                    canonical(actor_a@, actor_b@),
                )];
                &&& tracker.key() == canonical(actor_a@, actor_b@)
                &&& tracker.latest() is None ==> r is None
                &&& tracker.latest() is Some ==> r is Some && *r->0 == tracker.latest()->0
            },
    {
        match self.find_tracker(actor_a, actor_b) {
            Some(i) => {
                proof {
                    lemma_first_place(self.trackers(), canonical(actor_a@, actor_b@), i as int);
                }
                self.dyad_trackers[i].last_alert()
            },
            None => None,
        }
    }

    /// The identifiers of the registered entities, in the order of their registration.
    pub fn actors(&self) -> (r: Vec<String>)
        ensures
            r@.len() == self.world().ids().len(),
            forall|i: int| 0 <= i < r@.len() ==> (#[trigger] r@[i])@ == self.world().ids()[i],
    {
        self.model.actors()
    }

    /// The scheme of an entity; none for one that is not registered.
    pub fn get_scheme(&self, actor_id: &str) -> (r: Option<&CompressionScheme>)
        ensures
            !self.world().is_registered(actor_id@) ==> r is None,
            self.world().is_registered(actor_id@) ==> r is Some && exists|i: int|
                #[trigger] self.world().registered_at(actor_id@, i)
                    && self.world().entries()[i].scheme == *r->0,
    {
        self.model.get_scheme(actor_id)
    }

    /// The grievance of an entity; none for one that is not registered.
    pub fn get_grievance(&self, actor_id: &str) -> (r: Option<&Grievance>)
        ensures
            !self.world().is_registered(actor_id@) ==> r is None,
            self.world().is_registered(actor_id@) ==> r is Some && exists|i: int|
                #[trigger] self.world().registered_at(actor_id@, i)
                    && self.world().entries()[i].grievance == *r->0,
    {
        self.model.get_grievance(actor_id)
    }

    /// The alerts handed out so far, oldest first.
    pub fn alert_history(&self) -> (r: &Vec<NucleationAlert>)
        ensures
            r@ == self.alerts(),
    {
        &self.alert_history
    }

    /// Copies of the alerts in the history that ask for action, oldest
    /// first.
    pub fn actionable_alerts(&self) -> (r: Vec<NucleationAlert>)
        ensures
            r@ == actionable(self.alerts()),
    {
        let mut r: Vec<NucleationAlert> = Vec::new();
        let mut i: usize = 0;
        assert(self.alert_history@.take(0) =~= Seq::<NucleationAlert>::empty());
        while i < self.alert_history.len()
            invariant
                i <= self.alert_history@.len(),
                r@ == actionable(self.alert_history@.take(i as int)),
            decreases self.alert_history@.len() - i,
        {
            assert(self.alert_history@.take(i + 1).drop_last() =~= self.alert_history@.take(
                i as int,
            ));
            assert(self.alert_history@.take(i + 1).last() == self.alert_history@[i as int]);
            if self.alert_history[i].is_actionable() {
                r.push(self.alert_history[i].duplicate());
            }
            i += 1;
        }
        assert(self.alert_history@.take(i as int) =~= self.alert_history@);
        r
    }
}

/// The alerts among `alerts` that ask for action, in their order.
pub open spec fn actionable(alerts: Seq<NucleationAlert>) -> Seq<NucleationAlert>
    decreases alerts.len(),
{
    if alerts.len() == 0 {
        Seq::<NucleationAlert>::empty()
    } else if alerts.last().alert_level.actionable() {
        actionable(alerts.drop_last()).push(alerts.last())
    } else {
        actionable(alerts.drop_last())
    }
}

} // verus!
