//! The model: the registered entities with their schemes and grievances,
//! the history of scheme updates and the history of conflict potentials.

use vstd::prelude::*;
use crate::dyad::{canonical, id_lt, precedes, same_pair};
use crate::error::DivergenceError;
use crate::grievance::Grievance;
use crate::potential::{ConflictPotential, DivergenceMetrics};
use crate::ranking::{comparable, is_ranking, min_len, top_indices};
use crate::risk::RiskLevel;
use crate::scalar::Scalar;
use crate::scheme::{CompressionScheme, label_of};
use crate::window::trail_pushed;
use vstd::string::StringExecFns;

verus! {

/// Bit pattern of 0.1, the default learning rate.
pub const DEFAULT_LEARNING_RATE_BITS: u64 = 0x3FB9_9999_9999_999Au64;

/// Bit pattern of 0.5, the default weight of the potential.
pub const DEFAULT_ALPHA_BITS: u64 = 0x3FE0_0000_0000_0000u64;

/// Bit pattern of 0.3, the default damping by communication.
pub const DEFAULT_BETA_BITS: u64 = 0x3FD3_3333_3333_3333u64;

/// Bit pattern of 0.8, the default weight of trend and shock.
pub const DEFAULT_GAMMA_BITS: u64 = 0x3FE9_9999_9999_999Au64;

/// Settings of a model.
#[derive(Clone, Copy, Debug)]
pub struct ModelConfig {
    /// Length of every distribution.
    pub n_categories: usize,
    /// Weight of an observation in an update.
    pub learning_rate: Scalar,
    /// Weight of the potential in the escalation model.
    pub escalation_alpha: Scalar,
    /// Damping by communication in the escalation model.
    pub escalation_beta: Scalar,
    /// Weight of a rising trend and of a shock in the escalation model.
    pub escalation_gamma: Scalar,
    /// Errors that a grievance retains.
    pub grievance_window: usize,
}

impl Default for ModelConfig {
    fn default() -> (r: ModelConfig)
        ensures
            r.n_categories == 50,
            r.learning_rate.bits == DEFAULT_LEARNING_RATE_BITS,
            r.escalation_alpha.bits == DEFAULT_ALPHA_BITS,
            r.escalation_beta.bits == DEFAULT_BETA_BITS,
            r.escalation_gamma.bits == DEFAULT_GAMMA_BITS,
            r.grievance_window == 30,
    {
        ModelConfig {
            n_categories: 50,
            learning_rate: Scalar { bits: DEFAULT_LEARNING_RATE_BITS },
            escalation_alpha: Scalar { bits: DEFAULT_ALPHA_BITS },
            escalation_beta: Scalar { bits: DEFAULT_BETA_BITS },
            escalation_gamma: Scalar { bits: DEFAULT_GAMMA_BITS },
            grievance_window: 30,
        }
    }
}

/// A registered entity.
#[derive(Debug)]
pub struct ActorEntry {
    pub scheme: CompressionScheme,
    pub grievance: Grievance,
}

/// A scheme as it stood after an update.
#[derive(Debug)]
pub struct SchemeHistoryEntry {
    pub timestamp_ms: i64,
    pub actor_id: String,
    pub scheme: CompressionScheme,
}

/// The identifiers of the entries, in their order.
pub open spec fn ids_of(entries: Seq<ActorEntry>) -> Seq<Seq<char>> {
    Seq::new(entries.len(), |i: int| entries[i].scheme.actor_id@)
}

/// No identifier occurs twice, and each grievance is its scheme's.
pub open spec fn well_formed(entries: Seq<ActorEntry>) -> bool {
    &&& forall|i: int, j: int|
        0 <= i < j < entries.len() ==> (#[trigger] entries[i]).scheme.actor_id@ != (
        #[trigger] entries[j]).scheme.actor_id@
    &&& forall|i: int|
        0 <= i < entries.len() ==> (#[trigger] entries[i]).grievance.actor_id@
            == entries[i].scheme.actor_id@
}

/// The entities of a model with their histories.
#[derive(Debug)]
pub struct CompressionDynamicsModel {
    config: ModelConfig,
    entries: Vec<ActorEntry>,
    history: Vec<SchemeHistoryEntry>,
    potentials: Vec<ConflictPotential>,
}

impl CompressionDynamicsModel {
    /// The registry is in order: see `well_formed`.
    pub open spec fn wf(&self) -> bool {
        well_formed(self.entries())
    }

    /// The settings.
    pub closed spec fn settings(&self) -> ModelConfig {
        self.config
    }

    /// The registered entities, in the order of their registration.
    pub closed spec fn entries(&self) -> Seq<ActorEntry> {
        self.entries@
    }

    /// The schemes as they stood after each update, oldest first.
    pub closed spec fn history(&self) -> Seq<SchemeHistoryEntry> {
        self.history@
    }

    /// The conflict potentials computed so far, oldest first.
    pub closed spec fn potentials(&self) -> Seq<ConflictPotential> {
        self.potentials@
    }

    /// The identifiers of the registered entities.
    pub open spec fn ids(&self) -> Seq<Seq<char>> {
        ids_of(self.entries())
    }

    /// Whether an entity of this identifier is registered.
    pub open spec fn is_registered(&self, id: Seq<char>) -> bool {
        self.ids().contains(id)
    }

    /// A model without entities or histories.
    pub open spec fn empty(&self) -> bool {
        &&& self.entries().len() == 0
        &&& self.history().len() == 0
        &&& self.potentials().len() == 0
    }

    /// A model over `n_categories` categories with the default settings.
    pub fn new(n_categories: usize) -> (r: CompressionDynamicsModel)
        ensures
            r.settings().n_categories == n_categories,
            r.settings().learning_rate.bits == DEFAULT_LEARNING_RATE_BITS,
            r.settings().escalation_alpha.bits == DEFAULT_ALPHA_BITS,
            r.settings().escalation_beta.bits == DEFAULT_BETA_BITS,
            r.settings().escalation_gamma.bits == DEFAULT_GAMMA_BITS,
            r.settings().grievance_window == 30,
            r.empty(),
            r.wf(),
    {
        let mut config = ModelConfig::default();
        config.n_categories = n_categories;
        CompressionDynamicsModel::with_config(config)
    }

    /// A model with the given settings.
    pub fn with_config(config: ModelConfig) -> (r: CompressionDynamicsModel)
        ensures
            r.settings() == config,
            r.empty(),
            r.wf(),
    {
        CompressionDynamicsModel {
            config,
            entries: Vec::new(),
            history: Vec::new(),
            potentials: Vec::new(),
        }
    }

    /// The model with another learning rate.
    pub fn with_learning_rate(self, rate: Scalar) -> (r: CompressionDynamicsModel)
        ensures
            r.settings() == (ModelConfig { learning_rate: rate, ..self.settings() }),
            r.entries() == self.entries(),
            r.history() == self.history(),
            r.potentials() == self.potentials(),
    {
        let mut r = self;
        r.config.learning_rate = rate;
        r
    }

    /// The settings.
    pub fn config(&self) -> (r: &ModelConfig)
        ensures
            *r == self.settings(),
    {
        &self.config
    }

    /// Where the entity stands in the registry: the first place that holds
    /// its identifier.
    pub fn find(&self, actor_id: &str) -> (r: Option<usize>)
        ensures
            r is Some ==> r->0 < self.entries().len() && self.ids()[r->0 as int] == actor_id@
                && forall|j: int| 0 <= j < r->0 ==> self.ids()[j] != actor_id@,
            r is None ==> !self.is_registered(actor_id@),
    {
        let wanted: String = actor_id.to_owned();
        let mut i: usize = 0;
        while i < self.entries.len()
            invariant
                i <= self.entries@.len(),
                wanted@ == actor_id@,
                forall|j: int| 0 <= j < i ==> self.entries@[j].scheme.actor_id@ != actor_id@,
            decreases self.entries@.len() - i,
        {
            if self.entries[i].scheme.actor_id == wanted {
                return Some(i);
            }
            i += 1;
        }
        None
    }

    /// The scheme of an entity; none for one that is not registered.
    pub fn get_scheme(&self, actor_id: &str) -> (r: Option<&CompressionScheme>)
        ensures
            !self.is_registered(actor_id@) ==> r is None,
            self.is_registered(actor_id@) ==> r is Some && exists|i: int|
                #[trigger] self.registered_at(actor_id@, i) && self.entries()[i].scheme == *r->0,
    {
        match self.find(actor_id) {
            Some(i) => {
                assert(self.ids()[i as int] == self.entries()[i as int].scheme.actor_id@);
                assert(self.registered_at(actor_id@, i as int));
                Some(&self.entries[i].scheme)
            },
            None => None,
        }
    }

    /// The grievance of an entity; none for one that is not registered.
    pub fn get_grievance(&self, actor_id: &str) -> (r: Option<&Grievance>)
        ensures
            !self.is_registered(actor_id@) ==> r is None,
            self.is_registered(actor_id@) ==> r is Some && exists|i: int|
                #[trigger] self.registered_at(actor_id@, i) && self.entries()[i].grievance
                    == *r->0,
    {
        match self.find(actor_id) {
            Some(i) => {
                assert(self.ids()[i as int] == self.entries()[i as int].scheme.actor_id@);
                assert(self.registered_at(actor_id@, i as int));
                Some(&self.entries[i].grievance)
            },
            None => None,
        }
    }

    /// The identifiers of the registered entities, in the order of their
    /// registration.
    pub fn actors(&self) -> (r: Vec<String>)
        ensures
            r@.len() == self.ids().len(),
            forall|i: int| 0 <= i < r@.len() ==> (#[trigger] r@[i])@ == self.ids()[i],
    {
        let mut r: Vec<String> = Vec::new();
        let mut i: usize = 0;
        while i < self.entries.len()
            invariant
                i <= self.entries@.len(),
                r@.len() == i,
                forall|j: int|
                    0 <= j < i ==> (#[trigger] r@[j])@ == self.entries@[j].scheme.actor_id@,
            decreases self.entries@.len() - i,
        {
            r.push(self.entries[i].scheme.actor_id.clone());
            i += 1;
        }
        r
    }

    /// The registered entities other than `actor_id`, in the order of
    /// their registration.
    pub fn counterparts(&self, actor_id: &str) -> (r: Vec<String>)
        ensures
            strings_view(r@) == others(self.ids(), actor_id@),
    {
        let wanted: String = actor_id.to_owned();
        let mut r: Vec<String> = Vec::new();
        let mut i: usize = 0;
        assert(self.ids().take(0) =~= Seq::<Seq<char>>::empty());
        assert(strings_view(r@) =~= others(self.ids().take(0), actor_id@));
        while i < self.entries.len()
            invariant
                i <= self.entries@.len(),
                wanted@ == actor_id@,
                strings_view(r@) == others(self.ids().take(i as int), actor_id@),
            decreases self.entries@.len() - i,
        {
            let ghost before = r@;
            assert(self.ids().take(i + 1).drop_last() =~= self.ids().take(i as int));
            assert(self.ids().take(i + 1).last() == self.entries@[i as int].scheme.actor_id@);
            if self.entries[i].scheme.actor_id != wanted {
                r.push(self.entries[i].scheme.actor_id.clone());
                assert(strings_view(r@) =~= strings_view(before).push(
                    self.entries@[i as int].scheme.actor_id@,
                ));
            }
            i += 1;
        }
        assert(self.ids().take(i as int) =~= self.ids());
        r
    }

    /// Registers an entity with its prepared distribution. Registering an
    /// identifier again replaces its scheme and starts its grievance
    /// anew; the other entities stay as they are.
    pub fn register_actor(
        &mut self,
        actor_id: &str,
        distribution: Vec<Scalar>,
        categories: Option<Vec<String>>,
    )
        requires
            old(self).wf(),
        ensures
            final(self).wf(),
            final(self).settings() == old(self).settings(),
            final(self).history() == old(self).history(),
            final(self).potentials() == old(self).potentials(),
            final(self).is_registered(actor_id@),
            enrolled(
                old(self).entries(),
                final(self).entries(),
                actor_id@,
                distribution@,
                categories,
            ),
    {
        let found = self.find(actor_id);
        let scheme = CompressionScheme::new(actor_id.to_owned(), distribution, categories);
        let grievance = Grievance::new(actor_id.to_owned());
        let entry = ActorEntry { scheme, grievance };
        match found {
            Some(i) => {
                assert(well_formed(self.entries@.update(i as int, entry)));
                self.entries.set(i, entry);
                assert(final(self).ids()[i as int] == actor_id@);
            },
            None => {
                assert(well_formed(self.entries@.push(entry))) by {
                    assert forall|j: int| 0 <= j < self.entries@.len() implies (
                    #[trigger] self.entries@[j]).scheme.actor_id@ != actor_id@ by {
                        assert(self.ids()[j] == self.entries@[j].scheme.actor_id@);
                    }
                }
                self.entries.push(entry);
                assert(final(self).ids()[final(self).entries().len() - 1] == actor_id@);
            },
        }
    }

    /// Forgets the histories and every grievance; the schemes stay.
    pub fn clear_history(&mut self)
        requires
            old(self).wf(),
        ensures
            final(self).wf(),
            final(self).settings() == old(self).settings(),
            final(self).history().len() == 0,
            final(self).potentials().len() == 0,
            final(self).entries().len() == old(self).entries().len(),
            forall|i: int|
                0 <= i < final(self).entries().len() ==> {
                    &&& (#[trigger] final(self).entries()[i]).scheme == old(self).entries()[i].scheme
                    &&& final(self).entries()[i].grievance.blank()
                    &&& final(self).entries()[i].grievance.actor_id == old(self).entries()[i].grievance.actor_id
                },
    {
        self.history.clear();
        self.potentials.clear();
        let n: usize = self.entries.len();
        let mut i: usize = 0;
        while i < n
            invariant
                i <= n,
                n == self.entries@.len(),
                n == old(self).entries@.len(),
                self.config == old(self).config,
                self.history@.len() == 0,
                self.potentials@.len() == 0,
                well_formed(self.entries@),
                forall|j: int|
                    0 <= j < n ==> {
                        &&& (#[trigger] self.entries@[j]).scheme == old(self).entries@[j].scheme
                        &&& self.entries@[j].grievance.actor_id == old(self).entries@[j].grievance.actor_id
                    },
                forall|j: int| 0 <= j < i ==> (#[trigger] self.entries@[j]).grievance.blank(),
                forall|j: int|
                    i <= j < n ==> (#[trigger] self.entries@[j]) == old(self).entries@[j],
            decreases n - i,
        {
            let ghost before = self.entries@;
            assert(well_formed(before.remove(i as int)));
            let mut entry = self.entries.remove(i);
            entry.grievance.reset();
            assert(well_formed(before.remove(i as int).insert(i as int, entry))) by {
                let after = before.remove(i as int).insert(i as int, entry);
                assert forall|j: int| 0 <= j < after.len() implies (
                #[trigger] after[j]).scheme.actor_id@ == before[j].scheme.actor_id@
                    && after[j].grievance.actor_id@ == before[j].grievance.actor_id@ by {}
            }
            self.entries.insert(i, entry);
            assert(self.entries@ =~= before.update(i as int, entry));
            i += 1;
        }
    }

    /// Counts and names of what the model holds.
    pub fn summary(&self) -> (r: ModelSummary)
        ensures
            r.n_actors == self.entries().len(),
            r.n_history_entries == self.history().len(),
            r.n_potentials == self.potentials().len(),
            r.config == self.settings(),
            r.actors@.len() == self.ids().len(),
            forall|i: int| 0 <= i < r.actors@.len() ==> (#[trigger] r.actors@[i])@ == self.ids()[i],
    {
        ModelSummary {
            n_actors: self.entries.len(),
            n_history_entries: self.history.len(),
            n_potentials: self.potentials.len(),
            actors: self.actors(),
            config: self.config,
        }
    }
}

/// What a model holds, in numbers and names.
#[derive(Debug)]
pub struct ModelSummary {
    pub n_actors: usize,
    pub n_history_entries: usize,
    pub n_potentials: usize,
    pub actors: Vec<String>,
    pub config: ModelConfig,
}

/// The strings of a list, by their characters.
pub open spec fn strings_view(list: Seq<String>) -> Seq<Seq<char>> {
    Seq::new(list.len(), |i: int| list[i]@)
}

/// The identifiers other than `id`, in their order.
pub open spec fn others(ids: Seq<Seq<char>>, id: Seq<char>) -> Seq<Seq<char>>
    decreases ids.len(),
{
    if ids.len() == 0 {
        Seq::<Seq<char>>::empty()
    } else if ids.last() == id {
        others(ids.drop_last(), id)
    } else {
        others(ids.drop_last(), id).push(ids.last())
    }
}

/// An entry as registration makes it: the prepared distribution under the
/// given or the default names, and a blank grievance.
pub open spec fn newly_registered(
    entry: ActorEntry,
    id: Seq<char>,
    distribution: Seq<Scalar>,
    categories: Option<Vec<String>>,
) -> bool {
    &&& entry.scheme.actor_id@ == id
    &&& entry.scheme.weights() == distribution
    &&& categories is Some ==> entry.scheme.categories == categories->0
    &&& categories is None ==> entry.scheme.categories@.len() == distribution.len() && forall|
        i: int,
    |
        0 <= i < distribution.len() ==> (#[trigger] entry.scheme.categories@[i])@
            == crate::labels::default_label_of(i as nat)
    &&& entry.scheme.timestamp_ms is None
    &&& entry.scheme.source == crate::scheme::SchemeSource::Manual
    &&& entry.scheme.metadata@.len() == 0
    &&& entry.grievance.actor_id@ == id
    &&& entry.grievance.blank()
    &&& entry.grievance.timestamp_ms is None
}

/// `after` is `before` with the entity `id` registered: in its former
/// place where it was known, else at the end; every other entry as it was.
pub open spec fn enrolled(
    before: Seq<ActorEntry>,
    after: Seq<ActorEntry>,
    id: Seq<char>,
    distribution: Seq<Scalar>,
    categories: Option<Vec<String>>,
) -> bool {
    if ids_of(before).contains(id) {
        &&& after.len() == before.len()
        &&& forall|j: int|
            0 <= j < before.len() ==> if before[j].scheme.actor_id@ == id {
                newly_registered(#[trigger] after[j], id, distribution, categories)
            } else {
                after[j] == before[j]
            }
    } else {
        &&& after.len() == before.len() + 1
        &&& forall|j: int| 0 <= j < before.len() ==> #[trigger] after[j] == before[j]
        &&& newly_registered(after[before.len() as int], id, distribution, categories)
    }
}

/// A pair's records are the same in whichever order the pair is asked
/// for.
pub proof fn lemma_dyad_records_symmetric(
    potentials: Seq<ConflictPotential>,
    a: Seq<char>,
    b: Seq<char>,
)
    ensures
        dyad_records(potentials, a, b) == dyad_records(potentials, b, a),
    decreases potentials.len(),
{
    if potentials.len() > 0 {
        lemma_dyad_records_symmetric(potentials.drop_last(), a, b);
    }
}

/// A potential that was recorded for a pair is the newest record of that
/// pair, asked in either order, and no record of any other pair.
pub proof fn lemma_recorded_potential_is_found(
    before: CompressionDynamicsModel,
    after: CompressionDynamicsModel,
    a: Seq<char>,
    b: Seq<char>,
    metrics: DivergenceMetrics,
    r: Result<ConflictPotential, DivergenceError>,
    x: Seq<char>,
    y: Seq<char>,
)
    requires
        potential_recorded(before, after, a, b, metrics, r),
        r is Ok,
    ensures
        dyad_records(after.potentials(), a, b) == dyad_records(before.potentials(), a, b).push(
            r->Ok_0,
        ),
        dyad_records(after.potentials(), b, a) == dyad_records(after.potentials(), a, b),
        !same_pair(x, y, a, b) ==> dyad_records(after.potentials(), x, y) == dyad_records(
            before.potentials(),
            x,
            y,
        ),
{
    crate::dyad::lemma_canonical_ordered(a, b);
    lemma_dyad_records_symmetric(after.potentials(), a, b);
    assert(after.potentials().drop_last() =~= before.potentials());
    assert(after.potentials().last() == r->Ok_0);
}

/// Registration is idempotent: registering an entity a second time with
/// the same distribution and names leaves the registry as the first time
/// left it, entry for entry.
pub proof fn lemma_register_idempotent(
    before: Seq<ActorEntry>,
    once: Seq<ActorEntry>,
    twice: Seq<ActorEntry>,
    id: Seq<char>,
    distribution: Seq<Scalar>,
    categories: Option<Vec<String>>,
)
    requires
        well_formed(before),
        enrolled(before, once, id, distribution, categories),
        enrolled(once, twice, id, distribution, categories),
    ensures
        twice.len() == once.len(),
        ids_of(twice) == ids_of(once),
        forall|j: int|
            0 <= j < once.len() ==> if once[j].scheme.actor_id@ == id {
                newly_registered(#[trigger] twice[j], id, distribution, categories)
                    && newly_registered(once[j], id, distribution, categories)
            } else {
                twice[j] == once[j]
            },
{
    lemma_enrolled_contains(before, once, id, distribution, categories);
    assert forall|j: int| 0 <= j < once.len() implies (#[trigger] twice[j]).scheme.actor_id@
        == once[j].scheme.actor_id@ by {}
    assert(ids_of(twice) =~= ids_of(once));
    assert forall|j: int| 0 <= j < once.len() && once[j].scheme.actor_id@ == id implies newly_registered(
        once[j],
        id,
        distribution,
        categories,
    ) by {
        if ids_of(before).contains(id) {
            assert(j < before.len());
            if before[j].scheme.actor_id@ != id {
                assert(once[j] == before[j]);
            }
        } else {
            if j < before.len() {
                assert(once[j] == before[j]);
                assert(ids_of(before)[j] == id);
            }
        }
    }
}

/// After a registration the entity is registered.
pub proof fn lemma_enrolled_contains(
    before: Seq<ActorEntry>,
    after: Seq<ActorEntry>,
    id: Seq<char>,
    distribution: Seq<Scalar>,
    categories: Option<Vec<String>>,
)
    requires
        enrolled(before, after, id, distribution, categories),
    ensures
        ids_of(after).contains(id),
        after.len() >= before.len(),
{
    if ids_of(before).contains(id) {
        let i = choose|i: int| 0 <= i < ids_of(before).len() && ids_of(before)[i] == id;
        assert(before[i].scheme.actor_id@ == id);
        assert(ids_of(after)[i] == id);
    } else {
        assert(ids_of(after)[before.len() as int] == id);
    }
}

/// The pairs of a registry are the unordered pairs of different entities:
/// a registry of `n` entities has `n (n - 1) / 2` of them.
pub proof fn lemma_pairs_count(ids: Seq<Seq<char>>, i: int)
    requires
        0 <= i <= ids.len(),
    ensures
        2 * pairs_from(ids, i).len() == (ids.len() - i) * (ids.len() - i - 1),
    decreases ids.len() - i,
{
    if i < ids.len() {
        lemma_pairs_count(ids, i + 1);
        lemma_row_count(ids, i, i + 1);
        let m = ids.len() - i;
        let rest = pairs_from(ids, i + 1).len() as int;
        let here = pairs_from(ids, i).len() as int;
        assert(here == (m - 1) + rest);
        assert(2 * rest == (m - 1) * (m - 2));
        assert(2 * here == m * (m - 1)) by (nonlinear_arith)
            requires
                here == (m - 1) + rest,
                2 * rest == (m - 1) * (m - 2),
        ;
    } else {
        assert((ids.len() - i) * (ids.len() - i - 1) == 0) by (nonlinear_arith)
            requires
                ids.len() - i == 0,
        ;
    }
}

/// A row of pairs has one pair for each later item.
pub proof fn lemma_row_count(ids: Seq<Seq<char>>, i: int, j: int)
    requires
        0 <= i < ids.len(),
        0 <= j <= ids.len(),
    ensures
        row_pairs(ids, i, j).len() == ids.len() - j,
    decreases ids.len() - j,
{
    if j < ids.len() {
        lemma_row_count(ids, i, j + 1);
    }
}

impl CompressionDynamicsModel {
    /// The entity `id` stands at place `i` of the registry.
    pub open spec fn registered_at(&self, id: Seq<char>, i: int) -> bool {
        0 <= i < self.entries().len() && self.entries()[i].scheme.actor_id@ == id
    }
}

/// What the arithmetic yields for one update of a scheme.
#[derive(Debug)]
pub struct SchemeUpdate {
    /// The blend of the scheme and the observation, normalised and
    /// smoothed.
    pub distribution: Vec<Scalar>,
    /// How far the observation was from the scheme.
    pub prediction_error: Scalar,
    /// The entity's total error with this one.
    pub cumulative_error: Scalar,
    /// The mean of the errors that the grievance retains with this one.
    pub window_error: Scalar,
}

/// Where the entity `id` stands, or will stand once registered.
pub open spec fn slot(entries: Seq<ActorEntry>, id: Seq<char>) -> int {
    if ids_of(entries).contains(id) {
        ids_of(entries).index_of(id)
    } else {
        entries.len() as int
    }
}

/// `after` is `before` with the update taken in: the new distribution and
/// time stamp, the error in the grievance, everything else as it was.
pub open spec fn updated(
    before: ActorEntry,
    after: ActorEntry,
    update: SchemeUpdate,
    timestamp_ms: Option<i64>,
    window: int,
) -> bool {
    &&& after.scheme.actor_id == before.scheme.actor_id
    &&& after.scheme.categories == before.scheme.categories
    &&& after.scheme.source == before.scheme.source
    &&& after.scheme.metadata == before.scheme.metadata
    &&& after.scheme.weights() == update.distribution@
    &&& after.scheme.timestamp_ms == if timestamp_ms is Some {
        timestamp_ms
    } else {
        before.scheme.timestamp_ms
    }
    &&& after.grievance.actor_id == before.grievance.actor_id
    &&& after.grievance.timestamp_ms == before.grievance.timestamp_ms
    &&& after.grievance.error_history@ == trail_pushed(
        before.grievance.error_history@,
        window,
        update.prediction_error,
    )
    &&& after.grievance.cumulative_error == update.cumulative_error
    &&& after.grievance.window_error == if after.grievance.error_history@.len() > 0 {
        update.window_error
    } else {
        before.grievance.window_error
    }
}

/// What an update answers: a length that differs from the scheme's is
/// reported, the observation's first.
pub open spec fn update_outcome(n: usize, observation_len: usize, blended_len: usize) -> Result<
    (),
    DivergenceError,
> {
    if n != observation_len {
        Err(DivergenceError::DimensionMismatch { expected: n, got: observation_len })
    } else if n != blended_len {
        Err(DivergenceError::DimensionMismatch { expected: n, got: blended_len })
    } else {
        Ok(())
    }
}

/// `after` is `before` with an observation for `actor_id` taken in, and
/// `r` the answer: see `update_scheme`.
pub open spec fn update_applied(
    before: CompressionDynamicsModel,
    after: CompressionDynamicsModel,
    actor_id: Seq<char>,
    observation_len: usize,
    prior: Seq<Scalar>,
    update: SchemeUpdate,
    timestamp_ms: Option<i64>,
    now_ms: i64,
    r: Result<(), DivergenceError>,
) -> bool {
    &&& after.wf()
    &&& after.settings() == before.settings()
    &&& after.potentials() == before.potentials()
    &&& after.is_registered(actor_id)
    &&& after.entries().len() == before.entries().len() + if before.is_registered(
        actor_id,
    ) {
        0int
    } else {
        1int
    }
    &&& forall|j: int|
        0 <= j < before.entries().len() && j != slot(before.entries(), actor_id)
            ==> #[trigger] after.entries()[j] == before.entries()[j]
    &&& ({
        let k = slot(before.entries(), actor_id);
        let was = before.is_registered(actor_id);
        let n = if was {
            before.entries()[k].scheme.weights().len()
        } else {
            prior.len()
        };
        let window = before.settings().grievance_window as int;
        &&& r == update_outcome(
            n as usize,
            observation_len,
            update.distribution@.len() as usize,
        )
        &&& after.entries()[k].scheme.actor_id@ == actor_id
        &&& r is Err ==> {
            &&& after.history() == before.history()
            &&& was ==> after.entries()[k] == before.entries()[k]
            &&& !was ==> newly_registered(
                after.entries()[k],
                actor_id,
                prior,
                None,
            )
        }
        &&& r is Ok ==> {
            &&& after.history().len() == before.history().len() + 1
            &&& forall|h: int|
                0 <= h < before.history().len() ==> #[trigger] after.history()[h]
                    == before.history()[h]
            &&& after.history().last().actor_id@ == actor_id
            &&& after.history().last().timestamp_ms == if timestamp_ms is Some {
                timestamp_ms->0
            } else {
                now_ms
            }
            &&& after.history().last().scheme.weights() == update.distribution@
            &&& after.history().last().scheme.timestamp_ms == timestamp_ms
            &&& was ==> updated(
                before.entries()[k],
                after.entries()[k],
                update,
                timestamp_ms,
                window,
            )
            &&& !was ==> exists|base: ActorEntry|
                #![auto]
                newly_registered(base, actor_id, prior, None) && updated(
                    base,
                    after.entries()[k],
                    update,
                    timestamp_ms,
                    window,
                )
        }
    })
}

impl CompressionDynamicsModel {
    /// Takes in an observation for an entity. An entity that is not yet
    /// registered is registered first, with the prior and default names:
    /// an update never fails for an unknown entity, and the registration
    /// stays even where the update is then refused. The update is refused
    /// where the observation or the blend has another length than the
    /// scheme. Else the scheme takes the blend and the time stamp, a copy
    /// of it enters the history under that time stamp, or under `now_ms`
    /// where none was given, and the grievance takes in the error.
    pub fn update_scheme(
        &mut self,
        actor_id: &str,
        observation_len: usize,
        prior: Vec<Scalar>,
        update: SchemeUpdate,
        timestamp_ms: Option<i64>,
        now_ms: i64,
    ) -> (r: Result<(), DivergenceError>)
        requires
            old(self).wf(),
        ensures
            update_applied(
                *old(self),
                *final(self),
                actor_id@,
                observation_len,
                prior@,
                update,
                timestamp_ms,
                now_ms,
                r,
            ),
    {
        let ghost k = slot(old(self).entries(), actor_id@);
        let idx: usize = match self.find(actor_id) {
            Some(i) => {
                assert(i as int == k) by {
                    let c = ids_of(self.entries()).index_of(actor_id@);
                    assert(ids_of(self.entries())[c] == actor_id@);
                    assert(self.entries()[c].scheme.actor_id@ == self.entries()[i as int].scheme.actor_id@);
                }
                i
            },
            None => {
                self.register_actor(actor_id, prior, None);
                self.entries.len() - 1
            },
        };
        let ghost base = self.entries@[idx as int];
        let ghost mid = self.entries@;
        assert(base.scheme.actor_id@ == actor_id@) by {
            assert(self.ids()[idx as int] == base.scheme.actor_id@);
        }
        let n: usize = self.entries[idx].scheme.n_categories();
        match crate::error::check_dimensions(n, observation_len) {
            Err(e) => {
                return Err(e);
            },
            Ok(()) => {},
        }
        match crate::error::check_dimensions(n, update.distribution.len()) {
            Err(e) => {
                return Err(e);
            },
            Ok(()) => {},
        }
        assert(well_formed(mid.remove(idx as int)));
        let mut entry = self.entries.remove(idx);
        let SchemeUpdate { distribution, prediction_error, cumulative_error, window_error } =
            update;
        let taken = entry.scheme.update(distribution);
        match timestamp_ms {
            Some(ts) => {
                entry.scheme.timestamp_ms = Some(ts);
            },
            None => {},
        }
        entry.grievance.update(
            prediction_error,
            self.config.grievance_window,
            cumulative_error,
            window_error,
        );
        let stamp: i64 = match timestamp_ms {
            Some(ts) => ts,
            None => now_ms,
        };
        let mut copy = entry.scheme.duplicate();
        copy.timestamp_ms = timestamp_ms;
        let record = SchemeHistoryEntry {
            timestamp_ms: stamp,
            actor_id: actor_id.to_owned(),
            scheme: copy,
        };
        self.history.push(record);
        assert(well_formed(mid.remove(idx as int).insert(idx as int, entry))) by {
            let after = mid.remove(idx as int).insert(idx as int, entry);
            assert forall|j: int| 0 <= j < after.len() implies (
            #[trigger] after[j]).scheme.actor_id@ == mid[j].scheme.actor_id@
                && after[j].grievance.actor_id@ == mid[j].grievance.actor_id@ by {}
        }
        self.entries.insert(idx, entry);
        assert(self.entries@ =~= mid.update(idx as int, entry));
        assert(final(self).ids()[idx as int] == actor_id@);
        assert(updated(
            base,
            entry,
            update,
            timestamp_ms,
            old(self).settings().grievance_window as int,
        ));
        Ok(())
    }
}

/// Whether `r` is what a query for the pair of `a` and `b` is owed: an
/// unknown entity is reported, `a` before `b`; then two schemes of two
/// lengths; else the pair is in order.
pub open spec fn dyad_outcome(
    entries: Seq<ActorEntry>,
    a: Seq<char>,
    b: Seq<char>,
    r: Result<(), DivergenceError>,
) -> bool {
    let ids = ids_of(entries);
    if !ids.contains(a) {
        r is Err && r->Err_0 is UnknownActor && r->Err_0->UnknownActor_0@ == a
    } else if !ids.contains(b) {
        r is Err && r->Err_0 is UnknownActor && r->Err_0->UnknownActor_0@ == b
    } else {
        let n_a = entries[slot(entries, a)].scheme.weights().len();
        let n_b = entries[slot(entries, b)].scheme.weights().len();
        if n_a != n_b {
            r == Err::<(), DivergenceError>(
                DivergenceError::DimensionMismatch { expected: n_a as usize, got: n_b as usize },
            )
        } else {
            r is Ok
        }
    }
}

/// The later of two time stamps; one that is missing does not count.
pub open spec fn later(x: Option<i64>, y: Option<i64>) -> Option<i64> {
    match (x, y) {
        (Some(s), Some(t)) => if s < t {
            Some(t)
        } else {
            Some(s)
        },
        (Some(s), None) => Some(s),
        (None, t) => t,
    }
}

/// The records about the pair of `a` and `b`, in either direction, oldest
/// first.
pub open spec fn dyad_records(
    potentials: Seq<ConflictPotential>,
    a: Seq<char>,
    b: Seq<char>,
) -> Seq<ConflictPotential>
    decreases potentials.len(),
{
    if potentials.len() == 0 {
        Seq::<ConflictPotential>::empty()
    } else {
        let rest = dyad_records(potentials.drop_last(), a, b);
        if same_pair(potentials.last().actor_a@, potentials.last().actor_b@, a, b) {
            rest.push(potentials.last())
        } else {
            rest
        }
    }
}

/// The pairs of the item at `i` with each item from `j` on.
pub open spec fn row_pairs(ids: Seq<Seq<char>>, i: int, j: int) -> Seq<(Seq<char>, Seq<char>)>
    decreases ids.len() - j,
{
    if 0 <= i < ids.len() && 0 <= j < ids.len() {
        seq![(ids[i], ids[j])] + row_pairs(ids, i, j + 1)
    } else {
        Seq::<(Seq<char>, Seq<char>)>::empty()
    }
}

/// The pairs of each item from `i` on with each later item: the earlier
/// item first, pairs of an earlier item before those of a later one.
pub open spec fn pairs_from(ids: Seq<Seq<char>>, i: int) -> Seq<(Seq<char>, Seq<char>)>
    decreases ids.len() - i,
{
    if 0 <= i < ids.len() {
        row_pairs(ids, i, i + 1) + pairs_from(ids, i + 1)
    } else {
        Seq::<(Seq<char>, Seq<char>)>::empty()
    }
}

/// The pairs of a list, by their characters.
pub open spec fn pairs_view(list: Seq<(String, String)>) -> Seq<(Seq<char>, Seq<char>)> {
    Seq::new(list.len(), |i: int| (list[i].0@, list[i].1@))
}

/// `after` is `before` with the potential of the pair of `a` and `b`
/// recorded, and `r` the answer: see `compute_conflict_potential`.
pub open spec fn potential_recorded(
    before: CompressionDynamicsModel,
    after: CompressionDynamicsModel,
    a: Seq<char>,
    b: Seq<char>,
    metrics: DivergenceMetrics,
    r: Result<ConflictPotential, DivergenceError>,
) -> bool {
    &&& after.wf()
    &&& after.settings() == before.settings()
    &&& after.entries() == before.entries()
    &&& after.history() == before.history()
    &&& r is Err ==> after.potentials() == before.potentials() && dyad_outcome(
        before.entries(),
        a,
        b,
        Err(r->Err_0),
    )
    &&& r is Ok ==> {
        let i = slot(before.entries(), a);
        let j = slot(before.entries(), b);
        &&& dyad_outcome(before.entries(), a, b, Ok(()))
        &&& r->Ok_0.holds(
            canonical(a, b).0,
            canonical(a, b).1,
            if id_lt(a, b) {
                metrics
            } else {
                metrics.reversed()
            },
        )
        &&& r->Ok_0.timestamp_ms == later(
            before.entries()[i].scheme.timestamp_ms,
            before.entries()[j].scheme.timestamp_ms,
        )
        &&& after.potentials() == before.potentials().push(r->Ok_0)
    }
}

fn later_of(x: Option<i64>, y: Option<i64>) -> (r: Option<i64>)
    ensures
        r == later(x, y),
{
    match (x, y) {
        (Some(s), Some(t)) => if s < t {
            Some(t)
        } else {
            Some(s)
        },
        (Some(s), None) => Some(s),
        (None, t) => t,
    }
}

impl CompressionDynamicsModel {
    /// Whether the pair of `a` and `b` has a conflict potential.
    pub fn check_dyad(&self, actor_a: &str, actor_b: &str) -> (r: Result<(), DivergenceError>)
        requires
            self.wf(),
        ensures
            dyad_outcome(self.entries(), actor_a@, actor_b@, r),
    {
        match self.locate_dyad(actor_a, actor_b) {
            Ok(_) => Ok(()),
            Err(e) => Err(e),
        }
    }

    fn locate_dyad(&self, actor_a: &str, actor_b: &str) -> (r: Result<
        (usize, usize),
        DivergenceError,
    >)
        requires
            self.wf(),
        ensures
            r is Ok ==> dyad_outcome(self.entries(), actor_a@, actor_b@, Ok(())),
            r is Ok ==> r->Ok_0.0 == slot(self.entries(), actor_a@) && r->Ok_0.1 == slot(
                self.entries(),
                actor_b@,
            ) && r->Ok_0.0 < self.entries().len() && r->Ok_0.1 < self.entries().len(),
            r is Err ==> dyad_outcome(self.entries(), actor_a@, actor_b@, Err(r->Err_0)),
    {
        let i: usize = match self.find(actor_a) {
            Some(i) => i,
            None => {
                return Err(DivergenceError::UnknownActor(actor_a.to_owned()));
            },
        };
        let j: usize = match self.find(actor_b) {
            Some(j) => j,
            None => {
                return Err(DivergenceError::UnknownActor(actor_b.to_owned()));
            },
        };
        proof {
            let ci = ids_of(self.entries()).index_of(actor_a@);
            let cj = ids_of(self.entries()).index_of(actor_b@);
            assert(ids_of(self.entries())[ci] == actor_a@);
            assert(ids_of(self.entries())[cj] == actor_b@);
            assert(self.entries()[ci].scheme.actor_id@ == self.entries()[i as int].scheme.actor_id@);
            assert(self.entries()[cj].scheme.actor_id@ == self.entries()[j as int].scheme.actor_id@);
            assert(ci == i && cj == j);
        }
        match crate::error::check_dimensions(
            self.entries[i].scheme.n_categories(),
            self.entries[j].scheme.n_categories(),
        ) {
            Err(e) => Err(e),
            Ok(()) => Ok((i, j)),
        }
    }

    /// Records the conflict potential of the pair of `a` and `b` from
    /// its measures, `p` being the scheme of `a`. The record names the two
    /// entities in the order of their identifiers, with the directed
    /// measures turned where that is not the order given, and carries the
    /// later of the two schemes' time stamps. It enters the history. Where
    /// the pair has no potential, the reason is reported and nothing
    /// changes.
    pub fn compute_conflict_potential(
        &mut self,
        actor_a: &str,
        actor_b: &str,
        metrics: DivergenceMetrics,
    ) -> (r: Result<ConflictPotential, DivergenceError>)
        requires
            old(self).wf(),
        ensures
            potential_recorded(*old(self), *final(self), actor_a@, actor_b@, metrics, r),
    {
        let (i, j) = match self.locate_dyad(actor_a, actor_b) {
            Ok(found) => found,
            Err(e) => {
                return Err(e);
            },
        };
        let stamp = later_of(self.entries[i].scheme.timestamp_ms, self.entries[j].scheme.timestamp_ms);
        let in_order: bool = precedes(actor_a, actor_b);
        let m = if in_order {
            metrics
        } else {
            metrics.reverse()
        };
        let (first, second) = if in_order {
            (actor_a, actor_b)
        } else {
            (actor_b, actor_a)
        };
        let record = ConflictPotential {
            actor_a: first.to_owned(),
            actor_b: second.to_owned(),
            phi: m.symmetric_kl,
            js: m.jensen_shannon,
            hellinger: m.hellinger,
            kl_a_b: m.kl_p_q,
            kl_b_a: m.kl_q_p,
            timestamp_ms: stamp,
        };
        let copy = record.duplicate();
        self.potentials.push(record);
        Ok(copy)
    }

    /// Every pair of registered entities, once: the entity registered
    /// earlier first, the pairs of an earlier entity before those of a
    /// later one.
    pub fn pairs(&self) -> (r: Vec<(String, String)>)
        ensures
            pairs_view(r@) == pairs_from(self.ids(), 0),
    {
        let n: usize = self.entries.len();
        let mut r: Vec<(String, String)> = Vec::new();
        let mut i: usize = 0;
        assert(pairs_view(r@) =~= Seq::<(Seq<char>, Seq<char>)>::empty());
        while i < n
            invariant
                i <= n,
                n == self.entries@.len(),
                pairs_view(r@) + pairs_from(self.ids(), i as int) == pairs_from(self.ids(), 0),
            decreases n - i,
        {
            let mut j: usize = i + 1;
            let ghost start = pairs_view(r@);
            assert(start + Seq::<(Seq<char>, Seq<char>)>::empty() =~= start);
            while j < n
                invariant
                    i < j <= n,
                    n == self.entries@.len(),
                    pairs_view(r@) + row_pairs(self.ids(), i as int, j as int) == start + row_pairs(
                        self.ids(),
                        i as int,
                        i + 1,
                    ),
                decreases n - j,
            {
                let ghost before = pairs_view(r@);
                r.push(
                    (
                        self.entries[i].scheme.actor_id.clone(),
                        self.entries[j].scheme.actor_id.clone(),
                    ),
                );
                assert(pairs_view(r@) =~= before.push((self.ids()[i as int], self.ids()[j as int])));
                assert(before.push((self.ids()[i as int], self.ids()[j as int])) + row_pairs(
                    self.ids(),
                    i as int,
                    j + 1,
                ) =~= before + row_pairs(self.ids(), i as int, j as int));
                j += 1;
            }
            assert(row_pairs(self.ids(), i as int, n as int) =~= Seq::<
                (Seq<char>, Seq<char>),
            >::empty());
            assert(pairs_view(r@) =~= start + row_pairs(self.ids(), i as int, i + 1));
            assert((start + row_pairs(self.ids(), i as int, i + 1)) + pairs_from(self.ids(), i + 1)
                =~= start + pairs_from(self.ids(), i as int));
            i += 1;
        }
        assert(pairs_from(self.ids(), n as int) =~= Seq::<(Seq<char>, Seq<char>)>::empty());
        assert(pairs_view(r@) + Seq::<(Seq<char>, Seq<char>)>::empty() =~= pairs_view(r@));
        r
    }

    /// Copies of the records about the pair of `a` and `b`, asked in
    /// either order, oldest first.
    pub fn get_dyad_history(&self, actor_a: &str, actor_b: &str) -> (r: Vec<ConflictPotential>)
        ensures
            r@ == dyad_records(self.potentials(), actor_a@, actor_b@),
    {
        let a: String = actor_a.to_owned();
        let b: String = actor_b.to_owned();
        let mut r: Vec<ConflictPotential> = Vec::new();
        let mut i: usize = 0;
        assert(self.potentials@.take(0) =~= Seq::<ConflictPotential>::empty());
        while i < self.potentials.len()
            invariant
                i <= self.potentials@.len(),
                a@ == actor_a@,
                b@ == actor_b@,
                r@ == dyad_records(self.potentials@.take(i as int), actor_a@, actor_b@),
            decreases self.potentials@.len() - i,
        {
            assert(self.potentials@.take(i + 1).drop_last() =~= self.potentials@.take(i as int));
            assert(self.potentials@.take(i + 1).last() == self.potentials@[i as int]);
            let p = &self.potentials[i];
            if (p.actor_a == a && p.actor_b == b) || (p.actor_a == b && p.actor_b == a) {
                r.push(p.duplicate());
            }
            i += 1;
        }
        assert(self.potentials@.take(i as int) =~= self.potentials@);
        r
    }

    /// The newest two potentials of the pair of `a` and `b`, the newest
    /// first; nothing before the pair has two records.
    pub fn phi_step(&self, actor_a: &str, actor_b: &str) -> (r: Option<(Scalar, Scalar)>)
        ensures
            ({
                let records = dyad_records(self.potentials(), actor_a@, actor_b@);
                &&& records.len() < 2 ==> r is None
                &&& records.len() >= 2 ==> r == Some(
                    (records[records.len() - 1].phi, records[records.len() - 2].phi),
                )
            }),
    {
        let records = self.get_dyad_history(actor_a, actor_b);
        let n: usize = records.len();
        if n < 2 {
            None
        } else {
            Some((records[n - 1].phi, records[n - 2].phi))
        }
    }

    /// The windowed errors of two entities; nothing for one that is not
    /// registered.
    pub fn grievance_levels(&self, actor_a: &str, actor_b: &str) -> (r: (
        Option<Scalar>,
        Option<Scalar>,
    ))
        requires
            self.wf(),
        ensures
            self.is_registered(actor_a@) ==> r.0 == Some(
                self.entries()[slot(self.entries(), actor_a@)].grievance.window_error,
            ),
            !self.is_registered(actor_a@) ==> r.0 is None,
            self.is_registered(actor_b@) ==> r.1 == Some(
                self.entries()[slot(self.entries(), actor_b@)].grievance.window_error,
            ),
            !self.is_registered(actor_b@) ==> r.1 is None,
    {
        let g_a = match self.find(actor_a) {
            Some(i) => {
                proof {
                    let c = ids_of(self.entries()).index_of(actor_a@);
                    assert(ids_of(self.entries())[c] == actor_a@);
                    assert(self.entries()[c].scheme.actor_id@ == self.entries()[i as int].scheme.actor_id@);
                }
                Some(self.entries[i].grievance.window_error)
            },
            None => None,
        };
        let g_b = match self.find(actor_b) {
            Some(j) => {
                proof {
                    let c = ids_of(self.entries()).index_of(actor_b@);
                    assert(ids_of(self.entries())[c] == actor_b@);
                    assert(self.entries()[c].scheme.actor_id@ == self.entries()[j as int].scheme.actor_id@);
                }
                Some(self.entries[j].grievance.window_error)
            },
            None => None,
        };
        (g_a, g_b)
    }
}

/// How many categories an alignment path lists.
pub const PATH_LENGTH: usize = 5;

/// How many of them its recommendation names.
pub const FOCUS_LENGTH: usize = 3;

/// The forecast for a pair.
#[derive(Debug)]
pub struct EscalationPrediction {
    pub probability: Scalar,
    pub current_phi: Scalar,
    pub current_js: Scalar,
    pub d_phi_dt: Scalar,
    pub avg_grievance: Scalar,
    pub communication_level: Scalar,
    pub risk_category: RiskLevel,
    pub actor_a: String,
    pub actor_b: String,
}

/// One category's share in the divergence of a pair.
#[derive(Debug)]
pub struct CategoryDivergence {
    pub category: String,
    pub prob_a: Scalar,
    pub prob_b: Scalar,
    pub divergence_contribution: Scalar,
}

/// Where two entities diverge most, and what to talk about.
#[derive(Debug)]
pub struct ReconciliationPath {
    pub current_phi: Scalar,
    pub target_phi: Scalar,
    pub alignment_needed: Scalar,
    pub diverging_categories: Vec<CategoryDivergence>,
    pub recommendation: String,
}

/// Names in a row, a comma and a blank between each two.
pub open spec fn joined(names: Seq<Seq<char>>) -> Seq<char>
    decreases names.len(),
{
    if names.len() == 0 {
        Seq::<char>::empty()
    } else if names.len() == 1 {
        names[0]
    } else {
        joined(names.drop_last()) + ", "@ + names.last()
    }
}

/// The recommendation that names the given categories.
pub open spec fn recommendation_of(names: Seq<Seq<char>>) -> Seq<char> {
    "Focus dialogue on shared interpretations of: "@ + joined(names)
}

/// The names of the listed categories.
pub open spec fn category_names(list: Seq<CategoryDivergence>) -> Seq<Seq<char>> {
    Seq::new(list.len(), |i: int| list[i].category@)
}

/// `list` names the categories of largest contribution with their
/// probabilities in both schemes, largest first: some ranking of the
/// contributions lists them in this order.
pub open spec fn lists_divergences(
    list: Seq<CategoryDivergence>,
    scheme_a: CompressionScheme,
    scheme_b: CompressionScheme,
    contributions: Seq<Scalar>,
) -> bool {
    exists|order: Seq<usize>|
        #![auto]
        {
            &&& order.len() == list.len()
            &&& is_ranking(contributions, order)
            &&& forall|k: int|
                0 <= k < list.len() ==> {
                    &&& (#[trigger] list[k]).category@ == label_of(
                        scheme_a.categories@,
                        order[k] as int,
                    )
                    &&& list[k].prob_a == scheme_a.weights()[order[k] as int]
                    &&& list[k].prob_b == scheme_b.weights()[order[k] as int]
                    &&& list[k].divergence_contribution == contributions[order[k] as int]
                }
        }
}

/// The part of a trend that rises: the trend where it is above zero,
/// else zero.
pub fn rising_part(d_phi_dt: Scalar) -> (r: Scalar)
    ensures
        r == d_phi_dt.larger(Scalar { bits: 0 }),
{
    d_phi_dt.max(Scalar { bits: 0 })
}

/// Writes the recommendation that names the first categories of a path.
pub fn recommend(list: &Vec<CategoryDivergence>) -> (r: String)
    ensures
        r@ == recommendation_of(
            category_names(list@).take(min_len(FOCUS_LENGTH as int, list@.len() as int)),
        ),
{
    let m: usize = if FOCUS_LENGTH < list.len() {
        FOCUS_LENGTH
    } else {
        list.len()
    };
    let mut text = String::from_str("Focus dialogue on shared interpretations of: ");
    let ghost names = category_names(list@);
    let mut k: usize = 0;
    assert(names.take(0) =~= Seq::<Seq<char>>::empty());
    assert(text@ =~= recommendation_of(names.take(0)));
    while k < m
        invariant
            k <= m <= list@.len(),
            names == category_names(list@),
            text@ == recommendation_of(names.take(k as int)),
        decreases m - k,
    {
        let ghost before = text@;
        assert(names.take(k + 1).drop_last() =~= names.take(k as int));
        assert(names.take(k + 1).last() == list@[k as int].category@);
        if k > 0 {
            text.append(", ");
        }
        text.append(list[k].category.as_str());
        assert(text@ =~= recommendation_of(names.take(k + 1))) by {
            if k == 0 {
                assert(joined(names.take(0)) =~= Seq::<char>::empty());
                assert(joined(names.take(1)) == names.take(1)[0]);
                assert(text@ =~= before + list@[0].category@);
            } else {
                assert(text@ =~= before + ", "@ + list@[k as int].category@);
            }
        }
        k += 1;
    }
    text
}

impl CompressionDynamicsModel {
    /// Puts a forecast together: the probability with its category, and
    /// what it was computed from.
    pub fn predict_escalation(
        &self,
        current: &ConflictPotential,
        actor_a: &str,
        actor_b: &str,
        communication_level: Scalar,
        d_phi_dt: Scalar,
        avg_grievance: Scalar,
        probability: Scalar,
    ) -> (r: EscalationPrediction)
        ensures
            r.probability == probability,
            r.current_phi == current.phi,
            r.current_js == current.js,
            r.d_phi_dt == d_phi_dt,
            r.avg_grievance == avg_grievance,
            r.communication_level == communication_level,
            r.risk_category == RiskLevel::of_probability(probability),
            r.actor_a@ == actor_a@,
            r.actor_b@ == actor_b@,
    {
        EscalationPrediction {
            probability,
            current_phi: current.phi,
            current_js: current.js,
            d_phi_dt,
            avg_grievance,
            communication_level,
            risk_category: RiskLevel::from_probability(probability),
            actor_a: actor_a.to_owned(),
            actor_b: actor_b.to_owned(),
        }
    }

    /// Finds where two entities diverge most. `contributions` holds each
    /// category's share in their divergence. The path lists the five
    /// categories of largest share, largest first and equal ones in the
    /// order of the categories, under the names that the scheme of
    /// `actor_a` gives them, and recommends the first three. An unknown
    /// entity is reported, `actor_a` before `actor_b`; then schemes of two
    /// lengths; then contributions of another length than the schemes.
    pub fn find_alignment_path(
        &self,
        actor_a: &str,
        actor_b: &str,
        target_phi: Scalar,
        current_phi: Scalar,
        alignment_needed: Scalar,
        contributions: &Vec<Scalar>,
    ) -> (r: Result<ReconciliationPath, DivergenceError>)
        requires
            self.wf(),
            comparable(contributions@),
        ensures
            !dyad_outcome(self.entries(), actor_a@, actor_b@, Ok(())) ==> r is Err && dyad_outcome(
                self.entries(),
                actor_a@,
                actor_b@,
                Err(r->Err_0),
            ),
            dyad_outcome(self.entries(), actor_a@, actor_b@, Ok(())) ==> {
                let scheme_a = self.entries()[slot(self.entries(), actor_a@)].scheme;
                let scheme_b = self.entries()[slot(self.entries(), actor_b@)].scheme;
                let n = scheme_a.weights().len();
                &&& n != contributions@.len() ==> r == Err::<ReconciliationPath, DivergenceError>(
                    DivergenceError::DimensionMismatch {
                        expected: n as usize,
                        got: contributions@.len() as usize,
                    },
                )
                &&& n == contributions@.len() ==> {
                    &&& r is Ok
                    &&& r->Ok_0.current_phi == current_phi
                    &&& r->Ok_0.target_phi == target_phi
                    &&& r->Ok_0.alignment_needed == alignment_needed
                    &&& r->Ok_0.diverging_categories@.len() == min_len(PATH_LENGTH as int, n as int)
                    &&& lists_divergences(
                        r->Ok_0.diverging_categories@,
                        scheme_a,
                        scheme_b,
                        contributions@,
                    )
                    &&& r->Ok_0.recommendation@ == recommendation_of(
                        category_names(r->Ok_0.diverging_categories@).take(
                            min_len(
                                FOCUS_LENGTH as int,
                                r->Ok_0.diverging_categories@.len() as int,
                            ),
                        ),
                    )
                }
            },
    {
        let (i, j) = match self.locate_dyad(actor_a, actor_b) {
            Ok(found) => found,
            Err(e) => {
                return Err(e);
            },
        };
        let scheme_a = &self.entries[i].scheme;
        let scheme_b = &self.entries[j].scheme;
        match crate::error::check_dimensions(scheme_a.n_categories(), contributions.len()) {
            Err(e) => {
                return Err(e);
            },
            Ok(()) => {},
        }
        let order = top_indices(contributions, PATH_LENGTH);
        let mut list: Vec<CategoryDivergence> = Vec::new();
        let mut k: usize = 0;
        while k < order.len()
            invariant
                k <= order@.len(),
                list@.len() == k,
                is_ranking(contributions@, order@),
                scheme_a.weights().len() == contributions@.len(),
                scheme_b.weights().len() == contributions@.len(),
                forall|t: int|
                    0 <= t < k ==> {
                        &&& (#[trigger] list@[t]).category@ == label_of(
                            scheme_a.categories@,
                            order@[t] as int,
                        )
                        &&& list@[t].prob_a == scheme_a.weights()[order@[t] as int]
                        &&& list@[t].prob_b == scheme_b.weights()[order@[t] as int]
                        &&& list@[t].divergence_contribution == contributions@[order@[t] as int]
                    },
            decreases order@.len() - k,
        {
            let idx: usize = order[k];
            list.push(
                CategoryDivergence {
                    category: scheme_a.label(idx),
                    prob_a: scheme_a.distribution[idx],
                    prob_b: scheme_b.distribution[idx],
                    divergence_contribution: contributions[idx],
                },
            );
            k += 1;
        }
        assert(lists_divergences(list@, *scheme_a, *scheme_b, contributions@)) by {
            let witness = order@;
            assert(witness.len() == list@.len());
            assert(is_ranking(contributions@, witness));
        }
        let recommendation = recommend(&list);
        Ok(
            ReconciliationPath {
                current_phi,
                target_phi,
                alignment_needed,
                diverging_categories: list,
                recommendation,
            },
        )
    }
}

fn registry_in_order(entries: &Vec<ActorEntry>) -> (r: bool)
    ensures
        r == well_formed(entries@),
{
    let n: usize = entries.len();
    let mut i: usize = 0;
    while i < n
        invariant
            i <= n,
            n == entries@.len(),
            forall|p: int, q: int|
                0 <= p < q < n && p < i ==> (#[trigger] entries@[p]).scheme.actor_id@ != (
                #[trigger] entries@[q]).scheme.actor_id@,
            forall|p: int|
                0 <= p < i ==> (#[trigger] entries@[p]).grievance.actor_id@
                    == entries@[p].scheme.actor_id@,
        decreases n - i,
    {
        if entries[i].grievance.actor_id != entries[i].scheme.actor_id {
            return false;
        }
        let mut j: usize = i + 1;
        while j < n
            invariant
                i < j <= n,
                n == entries@.len(),
                forall|q: int|
                    i < q < j ==> entries@[i as int].scheme.actor_id@ != (
                    #[trigger] entries@[q]).scheme.actor_id@,
            decreases n - j,
        {
            if entries[i].scheme.actor_id == entries[j].scheme.actor_id {
                return false;
            }
            j += 1;
        }
        i += 1;
    }
    true
}

impl CompressionDynamicsModel {
    /// Whether the registry is in order.
    pub fn is_well_formed(&self) -> (r: bool)
        ensures
            r == self.wf(),
    {
        registry_in_order(&self.entries)
    }

    /// How many entities are registered.
    pub fn entry_count(&self) -> (r: usize)
        ensures
            r == self.entries().len(),
    {
        self.entries.len()
    }

    /// The entity at a place of the registry.
    pub fn entry(&self, index: usize) -> (r: &ActorEntry)
        requires
            index < self.entries().len(),
        ensures
            *r == self.entries()[index as int],
    {
        &self.entries[index]
    }

    /// The schemes as they stood after each update.
    pub fn scheme_history(&self) -> (r: &Vec<SchemeHistoryEntry>)
        ensures
            r@ == self.history(),
    {
        &self.history
    }

    /// The conflict potentials computed so far.
    pub fn potential_history(&self) -> (r: &Vec<ConflictPotential>)
        ensures
            r@ == self.potentials(),
    {
        &self.potentials
    }

    /// Puts a model together from its parts, as a snapshot holds them. A
    /// registry in which an identifier occurs twice, or a grievance is
    /// not its scheme's, is refused.
    pub fn restore(
        config: ModelConfig,
        entries: Vec<ActorEntry>,
        history: Vec<SchemeHistoryEntry>,
        potentials: Vec<ConflictPotential>,
    ) -> (r: Result<CompressionDynamicsModel, DivergenceError>)
        ensures
            well_formed(entries@) ==> r is Ok && r->Ok_0.wf() && r->Ok_0.settings() == config
                && r->Ok_0.entries() == entries@ && r->Ok_0.history() == history@
                && r->Ok_0.potentials() == potentials@,
            !well_formed(entries@) ==> r is Err && r->Err_0 is SerializationError,
    {
        if registry_in_order(&entries) {
            Ok(CompressionDynamicsModel { config, entries, history, potentials })
        } else {
            Err(
                DivergenceError::SerializationError(
                    String::from_str("the registry names an entity twice"),
                ),
            )
        }
    }
}

} // verus!
