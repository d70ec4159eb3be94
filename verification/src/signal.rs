//! Windows for streaming statistics of a series: the samples that a mean,
//! a variance, a slope or a second derivative is taken of.

use vstd::prelude::*;
use std::collections::VecDeque;
use crate::phase::ZERO_BITS;
use crate::scalar::Scalar;
use crate::window::{ring_pushed, newest_first, push_ring, recent, newest};

verus! {

/// A window of the newest samples of a series with their running sum and
/// sum of squares.
#[derive(Debug)]
pub struct RollingStats {
    window_size: usize,
    values: VecDeque<Scalar>,
    sum: Scalar,
    sum_sq: Scalar,
}

/// The sample that leaves a ring of this capacity at the next push.
pub open spec fn leaving(samples: Seq<Scalar>, cap: int) -> Option<Scalar> {
    if samples.len() >= cap && samples.len() > 0 {
        Some(samples[0])
    } else {
        None
    }
}

impl RollingStats {
    /// The capacity of the window.
    pub closed spec fn capacity(&self) -> nat {
        self.window_size as nat
    }

    /// The retained samples, oldest first.
    pub closed spec fn samples(&self) -> Seq<Scalar> {
        self.values@
    }

    /// The sum that was stored with the newest sample.
    pub closed spec fn total(&self) -> Scalar {
        self.sum
    }

    /// The sum of squares that was stored with the newest sample.
    pub closed spec fn total_sq(&self) -> Scalar {
        self.sum_sq
    }

    /// An empty window of the given capacity.
    pub fn new(window_size: usize) -> (r: RollingStats)
        ensures
            r.capacity() == window_size,
            r.samples().len() == 0,
            r.total() == (Scalar { bits: ZERO_BITS }),
            r.total_sq() == (Scalar { bits: ZERO_BITS }),
    {
        RollingStats {
            window_size,
            values: VecDeque::new(),
            sum: Scalar { bits: ZERO_BITS },
            sum_sq: Scalar { bits: ZERO_BITS },
        }
    }

    /// The sample that the next push removes: the sums lose it.
    pub fn evicts(&self) -> (r: Option<Scalar>)
        ensures
            r == leaving(self.samples(), self.capacity() as int),
    {
        if self.values.len() >= self.window_size && self.values.len() > 0 {
            Some(self.values[0])
        } else {
            None
        }
    }

    /// Stores a sample with the sums that include it; the oldest sample
    /// leaves a full window first.
    pub fn push(&mut self, value: Scalar, sum: Scalar, sum_sq: Scalar)
        ensures
            final(self).capacity() == old(self).capacity(),
            final(self).samples() == ring_pushed(
                old(self).samples(),
                old(self).capacity() as int,
                value,
            ),
            final(self).total() == sum,
            final(self).total_sq() == sum_sq,
    {
        push_ring(&mut self.values, self.window_size, 1, value);
        self.sum = sum;
        self.sum_sq = sum_sq;
    }

    /// The stored sum and sum of squares.
    pub fn sums(&self) -> (r: (Scalar, Scalar))
        ensures
            r.0 == self.total(),
            r.1 == self.total_sq(),
    {
        (self.sum, self.sum_sq)
    }

    /// How many samples the window holds.
    pub fn len(&self) -> (r: usize)
        ensures
            r == self.samples().len(),
    {
        self.values.len()
    }

    /// Whether the window holds no sample.
    pub fn is_empty(&self) -> (r: bool)
        ensures
            r == (self.samples().len() == 0),
    {
        self.values.len() == 0
    }

    /// The newest sample.
    pub fn last(&self) -> (r: Option<Scalar>)
        ensures
            self.samples().len() == 0 ==> r is None,
            self.samples().len() > 0 ==> r == Some(self.samples()[self.samples().len() - 1]),
    {
        newest(&self.values)
    }
}

/// A window of the newest samples of a series with their times.
#[derive(Debug)]
pub struct GradientTracker {
    window_size: usize,
    values: VecDeque<Scalar>,
    timestamps: VecDeque<Scalar>,
}

impl GradientTracker {
    /// The capacity of the window.
    pub closed spec fn capacity(&self) -> nat {
        self.window_size as nat
    }

    /// The retained samples, oldest first.
    pub closed spec fn samples(&self) -> Seq<Scalar> {
        self.values@
    }

    /// The times of the retained samples.
    pub closed spec fn times(&self) -> Seq<Scalar> {
        self.timestamps@
    }

    /// An empty window of the given capacity.
    pub fn new(window_size: usize) -> (r: GradientTracker)
        ensures
            r.capacity() == window_size,
            r.samples().len() == 0,
            r.times().len() == 0,
    {
        GradientTracker { window_size, values: VecDeque::new(), timestamps: VecDeque::new() }
    }

    /// Stores a sample with its time; the oldest leaves a full window
    /// first, with its time.
    pub fn push(&mut self, value: Scalar, timestamp: Scalar)
        ensures
            final(self).capacity() == old(self).capacity(),
            final(self).samples() == ring_pushed(
                old(self).samples(),
                old(self).capacity() as int,
                value,
            ),
            final(self).times() == ring_pushed(
                old(self).times(),
                old(self).capacity() as int,
                timestamp,
            ),
    {
        push_ring(&mut self.values, self.window_size, 1, value);
        push_ring(&mut self.timestamps, self.window_size, 1, timestamp);
    }

    /// The retained samples and their times, newest first: what a slope
    /// is fitted to.
    pub fn series(&self) -> (r: (Vec<Scalar>, Vec<Scalar>))
        ensures
            r.0@ == newest_first(self.samples(), self.samples().len() as int),
            r.1@ == newest_first(self.times(), self.times().len() as int),
    {
        (recent(&self.values, self.values.len()), recent(&self.timestamps, self.timestamps.len()))
    }

    /// The three newest samples and their times, newest first: what a
    /// second derivative is taken of. Nothing before there are three of
    /// each.
    pub fn newest_three(&self) -> (r: Option<(Vec<Scalar>, Vec<Scalar>)>)
        ensures
            (self.samples().len() < 3 || self.times().len() < 3) ==> r is None,
            self.samples().len() >= 3 && self.times().len() >= 3 ==> match r {
                Some((values, times)) => values@ == newest_first(self.samples(), 3) && times@
                    == newest_first(self.times(), 3),
                None => false,
            },
    {
        if self.values.len() < 3 || self.timestamps.len() < 3 {
            None
        } else {
            Some((recent(&self.values, 3), recent(&self.timestamps, 3)))
        }
    }
}

/// Samples and times of a tracker stay paired: pushed together, they
/// keep one length.
pub proof fn lemma_tracker_paired(
    samples: Seq<Scalar>,
    times: Seq<Scalar>,
    cap: int,
    value: Scalar,
    timestamp: Scalar,
)
    requires
        samples.len() == times.len(),
    ensures
        ring_pushed(samples, cap, value).len() == ring_pushed(times, cap, timestamp).len(),
{
}

} // verus!
