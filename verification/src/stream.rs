//! Decisions of a stream of events: which events are new, which pairs are
//! silenced, and which readings call for an alert.

use vstd::prelude::*;
use crate::dyad::{canonical, dyad_key};
use crate::risk::RiskLevel;
use crate::scalar::Scalar;

verus! {

/// Bit pattern of 2.0, the default threshold on the conflict potential.
pub const DEFAULT_PHI_ALERT_BITS: u64 = 0x4000_0000_0000_0000u64;

/// Bit pattern of 0.6, the default threshold on the Jensen-Shannon
/// divergence.
pub const DEFAULT_JS_ALERT_BITS: u64 = 0x3FE3_3333_3333_3333u64;

/// Bit pattern of 0.7, the default threshold on the escalation
/// probability.
pub const DEFAULT_ESCALATION_ALERT_BITS: u64 = 0x3FE6_6666_6666_6666u64;

/// Settings of a stream.
#[derive(Clone, Copy, Debug)]
pub struct StreamConfig {
    /// A potential at or above this is a reason to alert.
    pub phi_alert_threshold: Scalar,
    /// A Jensen-Shannon divergence at or above this is a reason.
    pub js_alert_threshold: Scalar,
    /// An escalation probability at or above this is a reason.
    pub escalation_alert_threshold: Scalar,
    /// Milliseconds for which an alert silences its pair.
    pub alert_cooldown_ms: i64,
    /// Events taken from the source at once.
    pub batch_size: usize,
    /// Whether an event identifier is taken only once.
    pub deduplicate: bool,
}

impl Default for StreamConfig {
    fn default() -> (r: StreamConfig)
        ensures
            r.phi_alert_threshold.bits == DEFAULT_PHI_ALERT_BITS,
            r.js_alert_threshold.bits == DEFAULT_JS_ALERT_BITS,
            r.escalation_alert_threshold.bits == DEFAULT_ESCALATION_ALERT_BITS,
            r.alert_cooldown_ms == 300_000,
            r.batch_size == 100,
            r.deduplicate,
    {
        StreamConfig {
            phi_alert_threshold: Scalar { bits: DEFAULT_PHI_ALERT_BITS },
            js_alert_threshold: Scalar { bits: DEFAULT_JS_ALERT_BITS },
            escalation_alert_threshold: Scalar { bits: DEFAULT_ESCALATION_ALERT_BITS },
            alert_cooldown_ms: 300_000,
            batch_size: 100,
            deduplicate: true,
        }
    }
}

/// An event of the stream.
#[derive(Debug)]
pub struct StreamEvent {
    pub event_id: String,
    pub actor_id: String,
    pub observation: Vec<Scalar>,
    pub timestamp_ms: i64,
    pub source: String,
    pub metadata: Vec<(String, String)>,
}

/// An alert of the stream.
#[derive(Debug)]
pub struct DivergenceAlert {
    pub alert_id: String,
    pub actor_a: String,
    pub actor_b: String,
    pub phi: Scalar,
    pub js: Scalar,
    pub d_phi_dt: Scalar,
    pub risk_level: RiskLevel,
    pub escalation_probability: Scalar,
    pub timestamp_ms: i64,
    pub reason: String,
}

/// Which thresholds a reading reaches.
#[derive(Clone, Copy, Debug, PartialEq, Eq, Structural)]
pub struct AlertReasons {
    pub phi: bool,
    pub js: bool,
    pub escalation: bool,
}

impl AlertReasons {
    /// Whether there is a reason at all.
    pub open spec fn some(self) -> bool {
        self.phi || self.js || self.escalation
    }

    /// Whether there is a reason at all.
    pub fn any(&self) -> (r: bool)
        ensures
            r == self.some(),
    {
        self.phi || self.js || self.escalation
    }
}

/// The thresholds that a reading reaches under a configuration.
pub open spec fn reasons_of(
    config: StreamConfig,
    phi: Scalar,
    js: Scalar,
    probability: Scalar,
) -> AlertReasons {
    AlertReasons {
        phi: phi.ge(config.phi_alert_threshold),
        js: js.ge(config.js_alert_threshold),
        escalation: probability.ge(config.escalation_alert_threshold),
    }
}

/// An event that was taken, with its time.
#[derive(Debug)]
pub struct SeenEvent {
    pub event_id: String,
    pub timestamp_ms: i64,
}

/// The time of the last alert of a pair.
#[derive(Debug)]
pub struct PairStamp {
    pub actor_a: String,
    pub actor_b: String,
    pub timestamp_ms: i64,
}

/// Whether an event of this identifier was taken.
pub open spec fn seen(events: Seq<SeenEvent>, id: Seq<char>) -> bool {
    exists|i: int| 0 <= i < events.len() && (#[trigger] events[i]).event_id@ == id
}

/// Whether the pair was alerted less than `cooldown` milliseconds before
/// `now`.
pub open spec fn silenced(
    stamps: Seq<PairStamp>,
    key: (Seq<char>, Seq<char>),
    now: i64,
    cooldown: i64,
) -> bool {
    exists|i: int|
        0 <= i < stamps.len() && (#[trigger] stamps[i]).actor_a@ == key.0 && stamps[i].actor_b@
            == key.1 && now - stamps[i].timestamp_ms < cooldown
}

/// The events that are younger than `max_age` at `now`, in their order.
pub open spec fn young(events: Seq<SeenEvent>, now: i64, max_age: i64) -> Seq<SeenEvent>
    decreases events.len(),
{
    if events.len() == 0 {
        Seq::<SeenEvent>::empty()
    } else if now - events.last().timestamp_ms < max_age {
        young(events.drop_last(), now, max_age).push(events.last())
    } else {
        young(events.drop_last(), now, max_age)
    }
}

/// No pair has two stamps.
pub open spec fn stamped_once(stamps: Seq<PairStamp>) -> bool {
    forall|i: int, j: int|
        0 <= i < j < stamps.len() ==> !((#[trigger] stamps[i]).actor_a@ == (
        #[trigger] stamps[j]).actor_a@ && stamps[i].actor_b@ == stamps[j].actor_b@)
}

/// What a stream remembers between events.
#[derive(Debug)]
pub struct StreamProcessor {
    config: StreamConfig,
    last_alert: Vec<PairStamp>,
    processed_events: Vec<SeenEvent>,
}

impl StreamProcessor {
    /// The settings.
    pub closed spec fn settings(&self) -> StreamConfig {
        self.config
    }

    /// The last alert of each pair that was alerted.
    pub closed spec fn stamps(&self) -> Seq<PairStamp> {
        self.last_alert@
    }

    /// The events taken so far.
    pub closed spec fn events(&self) -> Seq<SeenEvent> {
        self.processed_events@
    }

    /// Each pair has one stamp at most.
    pub open spec fn wf(&self) -> bool {
        stamped_once(self.stamps())
    }

    /// A stream that has seen nothing.
    pub fn new(config: StreamConfig) -> (r: StreamProcessor)
        ensures
            r.settings() == config,
            r.stamps().len() == 0,
            r.events().len() == 0,
            r.wf(),
    {
        StreamProcessor { config, last_alert: Vec::new(), processed_events: Vec::new() }
    }

    /// Whether each pair has one stamp at most.
    pub fn is_well_formed(&self) -> (r: bool)
        ensures
            r == self.wf(),
    {
        let n: usize = self.last_alert.len();
        let mut i: usize = 0;
        while i < n
            invariant
                i <= n,
                n == self.last_alert@.len(),
                forall|p: int, q: int|
                    0 <= p < q < n && p < i ==> !((#[trigger] self.last_alert@[p]).actor_a@ == (
                    #[trigger] self.last_alert@[q]).actor_a@ && self.last_alert@[p].actor_b@
                        == self.last_alert@[q].actor_b@),
            decreases n - i,
        {
            let mut j: usize = i + 1;
            while j < n
                invariant
                    i < j <= n,
                    n == self.last_alert@.len(),
                    forall|q: int|
                        i < q < j ==> !(self.last_alert@[i as int].actor_a@ == (
                        #[trigger] self.last_alert@[q]).actor_a@
                            && self.last_alert@[i as int].actor_b@ == self.last_alert@[q].actor_b@),
                decreases n - j,
            {
                if self.last_alert[i].actor_a == self.last_alert[j].actor_a
                    && self.last_alert[i].actor_b == self.last_alert[j].actor_b {
                    return false;
                }
                j += 1;
            }
            i += 1;
        }
        true
    }

    /// The settings.
    pub fn config(&self) -> (r: &StreamConfig)
        ensures
            *r == self.settings(),
    {
        &self.config
    }

    fn was_seen(&self, event_id: &str) -> (r: bool)
        ensures
            r == seen(self.events(), event_id@),
    {
        let wanted: String = event_id.to_owned();
        let mut i: usize = 0;
        while i < self.processed_events.len()
            invariant
                i <= self.processed_events@.len(),
                wanted@ == event_id@,
                forall|j: int| 0 <= j < i ==> self.processed_events@[j].event_id@ != event_id@,
            decreases self.processed_events@.len() - i,
        {
            if self.processed_events[i].event_id == wanted {
                return true;
            }
            i += 1;
        }
        false
    }

    /// Decides whether an event is taken. Without deduplication every
    /// event is, and none is remembered. With it, an identifier is taken
    /// once: the first event of it is remembered with its time, a later
    /// one is turned away and changes nothing.
    pub fn take_event(&mut self, event_id: &str, timestamp_ms: i64) -> (taken: bool)
        ensures
            final(self).settings() == old(self).settings(),
            final(self).stamps() == old(self).stamps(),
            taken == !(old(self).settings().deduplicate && seen(old(self).events(), event_id@)),
            !(old(self).settings().deduplicate && taken) ==> final(self).events() == old(self).events(),
            old(self).settings().deduplicate && taken ==> {
                &&& final(self).events().len() == old(self).events().len() + 1
                &&& forall|i: int|
                    0 <= i < old(self).events().len() ==> #[trigger] final(self).events()[i]
                        == old(self).events()[i]
                &&& final(self).events().last().event_id@ == event_id@
                &&& final(self).events().last().timestamp_ms == timestamp_ms
                &&& seen(final(self).events(), event_id@)
            },
    {
        if !self.config.deduplicate {
            return true;
        }
        if self.was_seen(event_id) {
            return false;
        }
        self.processed_events.push(SeenEvent { event_id: event_id.to_owned(), timestamp_ms });
        assert(final(self).events()[final(self).events().len() - 1].event_id@ == event_id@);
        true
    }

    fn find_stamp(&self, first: &String, second: &String) -> (r: Option<usize>)
        ensures
            r is Some ==> r->0 < self.stamps().len() && self.stamps()[r->0 as int].actor_a@
                == first@ && self.stamps()[r->0 as int].actor_b@ == second@,
            r is None ==> forall|i: int|
                0 <= i < self.stamps().len() ==> !((#[trigger] self.stamps()[i]).actor_a@ == first@
                    && self.stamps()[i].actor_b@ == second@),
    {
        let mut i: usize = 0;
        while i < self.last_alert.len()
            invariant
                i <= self.last_alert@.len(),
                forall|j: int|
                    0 <= j < i ==> !((#[trigger] self.last_alert@[j]).actor_a@ == first@
                        && self.last_alert@[j].actor_b@ == second@),
            decreases self.last_alert@.len() - i,
        {
            if self.last_alert[i].actor_a == *first && self.last_alert[i].actor_b == *second {
                return Some(i);
            }
            i += 1;
        }
        None
    }

    /// Whether the pair of `a` and `b`, in either order, was alerted less
    /// than the cooldown before `timestamp_ms`.
    pub fn in_cooldown(&self, actor_a: &str, actor_b: &str, timestamp_ms: i64) -> (r: bool)
        requires
            self.wf(),
        ensures
            r == silenced(
                self.stamps(),
                canonical(actor_a@, actor_b@),
                timestamp_ms,
                self.settings().alert_cooldown_ms,
            ),
    {
        let key = dyad_key(actor_a, actor_b);
        match self.find_stamp(&key.0, &key.1) {
            Some(i) => {
                let last: i64 = self.last_alert[i].timestamp_ms;
                let r = (timestamp_ms as i128) - (last as i128) < (
                self.config.alert_cooldown_ms as i128);
                proof {
                    let k = canonical(actor_a@, actor_b@);
                    if r {
                        assert(self.stamps()[i as int].actor_a@ == k.0);
                    } else {
                        assert forall|j: int|
                            0 <= j < self.stamps().len() && (#[trigger] self.stamps()[j]).actor_a@
                                == k.0 && self.stamps()[j].actor_b@ == k.1 implies !(timestamp_ms
                            - self.stamps()[j].timestamp_ms
                            < self.settings().alert_cooldown_ms) by {
                            assert(j == i);
                        }
                    }
                }
                r
            },
            None => false,
        }
    }

    /// The thresholds that a reading reaches.
    pub fn reasons(&self, phi: Scalar, js: Scalar, probability: Scalar) -> (r: AlertReasons)
        ensures
            r == reasons_of(self.settings(), phi, js, probability),
    {
        AlertReasons {
            phi: phi.is_ge(self.config.phi_alert_threshold),
            js: js.is_ge(self.config.js_alert_threshold),
            escalation: probability.is_ge(self.config.escalation_alert_threshold),
        }
    }

    /// Remembers that the pair of `a` and `b` was alerted at
    /// `timestamp_ms`: the pair's stamp is set, every other stamp stays.
    pub fn record_alert(&mut self, actor_a: &str, actor_b: &str, timestamp_ms: i64)
        requires
            old(self).wf(),
        ensures
            final(self).wf(),
            final(self).settings() == old(self).settings(),
            final(self).events() == old(self).events(),
            exists|i: int|
                0 <= i < final(self).stamps().len() && (#[trigger] final(self).stamps()[i]).actor_a@
                    == canonical(actor_a@, actor_b@).0 && final(self).stamps()[i].actor_b@
                    == canonical(actor_a@, actor_b@).1 && final(self).stamps()[i].timestamp_ms
                    == timestamp_ms,
            forall|i: int|
                0 <= i < old(self).stamps().len() && !((#[trigger] old(self).stamps()[i]).actor_a@
                    == canonical(actor_a@, actor_b@).0 && old(self).stamps()[i].actor_b@
                    == canonical(actor_a@, actor_b@).1) ==> final(self).stamps()[i] == old(self).stamps()[i],
            final(self).stamps().len() >= old(self).stamps().len(),
    {
        let key = dyad_key(actor_a, actor_b);
        match self.find_stamp(&key.0, &key.1) {
            Some(i) => {
                let ghost before = self.last_alert@;
                let stamp = &mut self.last_alert[i];
                stamp.timestamp_ms = timestamp_ms;
                assert(final(self).stamps()[i as int].actor_a@ == key.0@);
            },
            None => {
                self.last_alert.push(
                    PairStamp { actor_a: key.0, actor_b: key.1, timestamp_ms },
                );
                assert(final(self).stamps()[final(self).stamps().len() - 1].timestamp_ms
                    == timestamp_ms);
            },
        }
    }

    /// Forgets the events that are `max_age_ms` old or older at `now_ms`.
    pub fn cleanup_old_events(&mut self, now_ms: i64, max_age_ms: i64)
        ensures
            final(self).settings() == old(self).settings(),
            final(self).stamps() == old(self).stamps(),
            final(self).events() == young(old(self).events(), now_ms, max_age_ms),
    {
        let mut kept: Vec<SeenEvent> = Vec::new();
        let mut i: usize = 0;
        assert(self.processed_events@.take(0) =~= Seq::<SeenEvent>::empty());
        while i < self.processed_events.len()
            invariant
                i <= self.processed_events@.len(),
                kept@ == young(self.processed_events@.take(i as int), now_ms, max_age_ms),
            decreases self.processed_events@.len() - i,
        {
            assert(self.processed_events@.take(i + 1).drop_last() =~= self.processed_events@.take(
                i as int,
            ));
            assert(self.processed_events@.take(i + 1).last() == self.processed_events@[i as int]);
            let event = &self.processed_events[i];
            if (now_ms as i128) - (event.timestamp_ms as i128) < (max_age_ms as i128) {
                kept.push(
                    SeenEvent {
                        event_id: event.event_id.clone(),
                        timestamp_ms: event.timestamp_ms,
                    },
                );
            }
            i += 1;
        }
        assert(self.processed_events@.take(i as int) =~= self.processed_events@);
        self.processed_events = kept;
    }
}

/// With deduplication, an identifier that was taken is never taken again.
pub proof fn lemma_taken_once(events: Seq<SeenEvent>, id: Seq<char>, extra: SeenEvent)
    requires
        seen(events, id),
    ensures
        seen(events.push(extra), id),
{
    let i = choose|i: int| 0 <= i < events.len() && (#[trigger] events[i]).event_id@ == id;
    assert(events.push(extra)[i].event_id@ == id);
}

} // verus!
