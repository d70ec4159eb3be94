//! An entity's worldview: a probability distribution over named categories.
//!
//! A scheme stores its distribution as prepared by the caller, normalised
//! and smoothed; it keeps the length fixed and finds its largest categories.

use vstd::prelude::*;
use crate::error::{DivergenceError, dimension_check, check_dimensions};
use crate::labels::{default_label_of, default_label, default_labels};
use crate::ranking::{comparable, is_ranking, min_len, top_indices};
use crate::scalar::Scalar;

verus! {

/// Where a scheme's numbers come from.
#[derive(Clone, Copy, Debug, PartialEq, Eq, Structural)]
pub enum SchemeSource {
    /// Speeches, documents, media.
    Text,
    /// Event data.
    Events,
    /// Text and events.
    Hybrid,
    /// Binned conflict-cooperation scores.
    Goldstein,
    /// Given by hand.
    Manual,
}

impl Default for SchemeSource {
    fn default() -> (r: SchemeSource)
        ensures
            r == SchemeSource::Manual,
    {
        SchemeSource::Manual
    }
}

/// The name of category `i`: the one given, or the default where the
/// names run out before it.
pub open spec fn label_of(categories: Seq<String>, i: int) -> Seq<char> {
    if 0 <= i < categories.len() {
        categories[i]@
    } else {
        default_label_of(i as nat)
    }
}

/// Every probability is a number above zero.
pub open spec fn strictly_positive(weights: Seq<Scalar>) -> bool {
    forall|i: int| 0 <= i < weights.len() ==> (#[trigger] weights[i]).gt(Scalar { bits: 0 })
}

/// Probabilities that are all above zero can be ranked: none is a NaN.
pub proof fn lemma_positive_is_comparable(weights: Seq<Scalar>)
    requires
        strictly_positive(weights),
    ensures
        comparable(weights),
{
    assert forall|i: int| 0 <= i < weights.len() implies !(#[trigger] weights[i]).nan() by {
        assert(weights[i].gt(Scalar { bits: 0 }));
    }
}

/// `after` is `before` with `value` noted under `key`: in the place of
/// the first note of that key, or at the end where there is none.
pub open spec fn noted(
    before: Seq<(String, String)>,
    after: Seq<(String, String)>,
    key: Seq<char>,
    value: Seq<char>,
) -> bool {
    if exists|i: int| 0 <= i < before.len() && (#[trigger] before[i]).0@ == key {
        let first = choose|i: int|
            0 <= i < before.len() && (#[trigger] before[i]).0@ == key && forall|j: int|
                0 <= j < i ==> (#[trigger] before[j]).0@ != key;
        &&& after.len() == before.len()
        &&& after[first].0@ == key
        &&& after[first].1@ == value
        &&& forall|j: int| 0 <= j < before.len() && j != first ==> #[trigger] after[j] == before[j]
    } else {
        &&& after.len() == before.len() + 1
        &&& after.last().0@ == key
        &&& after.last().1@ == value
        &&& forall|j: int| 0 <= j < before.len() ==> #[trigger] after[j] == before[j]
    }
}

/// An entity's distribution over categories.
#[derive(Debug)]
pub struct CompressionScheme {
    /// The entity.
    pub actor_id: String,
    /// The probabilities, one per category.
    pub distribution: Vec<Scalar>,
    /// The categories' names.
    pub categories: Vec<String>,
    /// When the scheme was last updated, in milliseconds.
    pub timestamp_ms: Option<i64>,
    /// Where the numbers come from.
    pub source: SchemeSource,
    /// Free-form notes: keys with their values, each key once.
    pub metadata: Vec<(String, String)>,
}

impl CompressionScheme {
    /// The probabilities, one per category.
    pub open spec fn weights(&self) -> Seq<Scalar> {
        self.distribution@
    }

    /// `top` lists the `top.len()` largest categories of the scheme:
    /// some ranking of the probabilities names them in this order.
    pub open spec fn lists_top(&self, top: Seq<(String, Scalar)>) -> bool {
        exists|order: Seq<usize>|
            #![auto]
            {
                &&& order.len() == top.len()
                &&& is_ranking(self.weights(), order)
                &&& forall|k: int|
                    0 <= k < top.len() ==> {
                        &&& (#[trigger] top[k]).0@ == label_of(self.categories@, order[k] as int)
                        &&& top[k].1 == self.weights()[order[k] as int]
                    }
            }
    }

    /// A scheme for `actor_id` over the prepared `distribution`. Without
    /// names, the categories are named by their index.
    pub fn new(actor_id: String, distribution: Vec<Scalar>, categories: Option<Vec<String>>) -> (r:
        CompressionScheme)
        ensures
            r.actor_id@ == actor_id@,
            r.weights() == distribution@,
            categories is Some ==> r.categories == categories->0,
            categories is None ==> r.categories@.len() == distribution@.len() && forall|i: int|
                0 <= i < distribution@.len() ==> (#[trigger] r.categories@[i])@ == default_label_of(
                    i as nat,
                ),
            r.timestamp_ms is None,
            r.source == SchemeSource::Manual,
            r.metadata@.len() == 0,
    {
        let categories = match categories {
            Some(given) => given,
            None => default_labels(distribution.len()),
        };
        CompressionScheme {
            actor_id,
            distribution,
            categories,
            timestamp_ms: None,
            source: SchemeSource::Manual,
            metadata: Vec::new(),
        }
    }

    /// The probabilities, one per category.
    pub fn distribution(&self) -> (r: &Vec<Scalar>)
        ensures
            r@ == self.weights(),
    {
        &self.distribution
    }

    /// The number of categories.
    pub fn n_categories(&self) -> (r: usize)
        ensures
            r == self.weights().len(),
    {
        self.distribution.len()
    }

    /// Whether every probability is above zero, as smoothing leaves it.
    pub fn is_strictly_positive(&self) -> (r: bool)
        ensures
            r == strictly_positive(self.weights()),
    {
        let mut i: usize = 0;
        while i < self.distribution.len()
            invariant
                i <= self.distribution@.len(),
                forall|j: int|
                    0 <= j < i ==> (#[trigger] self.distribution@[j]).gt(Scalar { bits: 0 }),
            decreases self.distribution@.len() - i,
        {
            if !self.distribution[i].is_gt(Scalar { bits: 0 }) {
                return false;
            }
            i += 1;
        }
        true
    }

    /// The name of category `i`.
    pub fn label(&self, i: usize) -> (r: String)
        ensures
            r@ == label_of(self.categories@, i as int),
    {
        if i < self.categories.len() {
            self.categories[i].clone()
        } else {
            default_label(i)
        }
    }

    /// The `n` categories of largest probability with their probabilities,
    /// largest first, equal ones in the order of the categories.
    pub fn top_categories(&self, n: usize) -> (top: Vec<(String, Scalar)>)
        requires
            comparable(self.weights()),
        ensures
            top@.len() == min_len(n as int, self.weights().len() as int),
            self.lists_top(top@),
    {
        let order = top_indices(&self.distribution, n);
        let mut top: Vec<(String, Scalar)> = Vec::new();
        let mut k: usize = 0;
        while k < order.len()
            invariant
                k <= order@.len(),
                top@.len() == k,
                is_ranking(self.weights(), order@),
                forall|j: int|
                    0 <= j < k ==> {
                        &&& (#[trigger] top@[j]).0@ == label_of(self.categories@, order@[j] as int)
                        &&& top@[j].1 == self.weights()[order@[j] as int]
                    },
            decreases order@.len() - k,
        {
            let i: usize = order[k];
            top.push((self.label(i), self.distribution[i]));
            k += 1;
        }
        assert(self.lists_top(top@)) by {
            let witness = order@;
            assert(witness.len() == top@.len());
            assert(is_ranking(self.weights(), witness));
        }
        top
    }

    /// Accepts an observation of the scheme's length and reports any other.
    pub fn check_observation(&self, observation_len: usize) -> (r: Result<(), DivergenceError>)
        ensures
            r == dimension_check(self.weights().len() as usize, observation_len),
    {
        check_dimensions(self.distribution.len(), observation_len)
    }

    /// Replaces the distribution by the blend of it and an observation. A
    /// blend of another length is reported, and changes nothing.
    pub fn update(&mut self, blended: Vec<Scalar>) -> (r: Result<(), DivergenceError>)
        ensures
            r == dimension_check(old(self).weights().len() as usize, blended@.len() as usize),
            r is Ok ==> final(self).weights() == blended@,
            r is Err ==> final(self).weights() == old(self).weights(),
            final(self).actor_id == old(self).actor_id,
            final(self).categories == old(self).categories,
            final(self).timestamp_ms == old(self).timestamp_ms,
            final(self).source == old(self).source,
            final(self).metadata == old(self).metadata,
    {
        match check_dimensions(self.distribution.len(), blended.len()) {
            Ok(()) => {
                self.distribution = blended;
                Ok(())
            },
            Err(e) => Err(e),
        }
    }

    /// The scheme with a time stamp.
    pub fn with_timestamp(self, timestamp_ms: i64) -> (r: CompressionScheme)
        ensures
            r.timestamp_ms == Some(timestamp_ms),
            r.actor_id == self.actor_id,
            r.weights() == self.weights(),
            r.categories == self.categories,
            r.source == self.source,
            r.metadata == self.metadata,
    {
        let mut r = self;
        r.timestamp_ms = Some(timestamp_ms);
        r
    }

    /// The scheme with another source.
    pub fn with_source(self, source: SchemeSource) -> (r: CompressionScheme)
        ensures
            r.source == source,
            r.actor_id == self.actor_id,
            r.weights() == self.weights(),
            r.categories == self.categories,
            r.timestamp_ms == self.timestamp_ms,
            r.metadata == self.metadata,
    {
        let mut r = self;
        r.source = source;
        r
    }

    /// The scheme with a note: the value of a key that is there is
    /// replaced, a new key is added at the end.
    pub fn with_metadata(self, key: String, value: String) -> (r: CompressionScheme)
        ensures
            r.actor_id == self.actor_id,
            r.weights() == self.weights(),
            r.categories == self.categories,
            r.timestamp_ms == self.timestamp_ms,
            r.source == self.source,
            noted(self.metadata@, r.metadata@, key@, value@),
    {
        let mut r = self;
        let mut i: usize = 0;
        while i < r.metadata.len()
            invariant
                i <= r.metadata@.len(),
                r == self,
                forall|j: int| 0 <= j < i ==> (#[trigger] r.metadata@[j]).0@ != key@,
            decreases r.metadata@.len() - i,
        {
            if r.metadata[i].0 == key {
                r.metadata.set(i, (key, value));
                return r;
            }
            i += 1;
        }
        r.metadata.push((key, value));
        r
    }

    /// A copy of the scheme.
    pub fn duplicate(&self) -> (r: CompressionScheme)
        ensures
            r.actor_id@ == self.actor_id@,
            r.weights() == self.weights(),
            r.timestamp_ms == self.timestamp_ms,
            r.source == self.source,
            r.categories@.len() == self.categories@.len(),
            forall|i: int|
                0 <= i < self.categories@.len() ==> (#[trigger] r.categories@[i])@
                    == self.categories@[i]@,
            r.metadata@.len() == self.metadata@.len(),
            forall|i: int|
                0 <= i < self.metadata@.len() ==> (#[trigger] r.metadata@[i]).0@
                    == self.metadata@[i].0@ && r.metadata@[i].1@ == self.metadata@[i].1@,
    {
        let mut distribution: Vec<Scalar> = Vec::new();
        let mut i: usize = 0;
        while i < self.distribution.len()
            invariant
                i <= self.distribution@.len(),
                distribution@.len() == i,
                forall|j: int| 0 <= j < i ==> distribution@[j] == self.distribution@[j],
            decreases self.distribution@.len() - i,
        {
            distribution.push(self.distribution[i]);
            i += 1;
        }
        assert(distribution@ =~= self.distribution@);
        let mut categories: Vec<String> = Vec::new();
        let mut c: usize = 0;
        while c < self.categories.len()
            invariant
                c <= self.categories@.len(),
                categories@.len() == c,
                forall|j: int| 0 <= j < c ==> (#[trigger] categories@[j])@ == self.categories@[j]@,
            decreases self.categories@.len() - c,
        {
            categories.push(self.categories[c].clone());
            c += 1;
        }
        let mut metadata: Vec<(String, String)> = Vec::new();
        let mut m: usize = 0;
        while m < self.metadata.len()
            invariant
                m <= self.metadata@.len(),
                metadata@.len() == m,
                forall|j: int|
                    0 <= j < m ==> (#[trigger] metadata@[j]).0@ == self.metadata@[j].0@
                        && metadata@[j].1@ == self.metadata@[j].1@,
            decreases self.metadata@.len() - m,
        {
            metadata.push((self.metadata[m].0.clone(), self.metadata[m].1.clone()));
            m += 1;
        }
        CompressionScheme {
            actor_id: self.actor_id.clone(),
            distribution,
            categories,
            timestamp_ms: self.timestamp_ms,
            source: self.source,
            metadata,
        }
    }
}

} // verus!
