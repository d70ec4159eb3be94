//! Accumulated prediction error of an entity.

use vstd::prelude::*;
use crate::phase::ZERO_BITS;
use crate::scalar::Scalar;
use crate::window::{trail_pushed, push_trail};

verus! {

/// An entity's prediction errors: their running total, the trailing
/// window of the newest, and the mean of that window.
#[derive(Debug)]
pub struct Grievance {
    pub actor_id: String,
    /// Total of all errors since the last reset.
    pub cumulative_error: Scalar,
    /// Mean of the retained errors.
    pub window_error: Scalar,
    /// The retained errors, oldest first.
    pub error_history: Vec<Scalar>,
    pub timestamp_ms: Option<i64>,
}

impl Grievance {
    /// A grievance that has seen no error.
    pub open spec fn blank(&self) -> bool {
        &&& self.cumulative_error == Scalar { bits: ZERO_BITS }
        &&& self.window_error == Scalar { bits: ZERO_BITS }
        &&& self.error_history@.len() == 0
    }

    /// A grievance of the entity that has seen no error.
    pub fn new(actor_id: String) -> (r: Grievance)
        ensures
            r.actor_id@ == actor_id@,
            r.blank(),
            r.timestamp_ms is None,
    {
        Grievance {
            actor_id,
            cumulative_error: Scalar { bits: ZERO_BITS },
            window_error: Scalar { bits: ZERO_BITS },
            error_history: Vec::new(),
            timestamp_ms: None,
        }
    }

    /// The errors that a window of `window_size` retains once
    /// `prediction_error` has entered: what the next mean is taken of.
    pub fn window_with(&self, prediction_error: Scalar, window_size: usize) -> (r: Vec<Scalar>)
        ensures
            r@ == trail_pushed(self.error_history@, window_size as int, prediction_error),
    {
        let mut r: Vec<Scalar> = Vec::new();
        let mut i: usize = 0;
        while i < self.error_history.len()
            invariant
                i <= self.error_history@.len(),
                r@.len() == i,
                forall|j: int| 0 <= j < i ==> r@[j] == self.error_history@[j],
            decreases self.error_history@.len() - i,
        {
            r.push(self.error_history[i]);
            i += 1;
        }
        assert(r@ =~= self.error_history@);
        push_trail(&mut r, window_size, prediction_error);
        r
    }

    /// Takes in an error: it enters the trailing window, from which the
    /// oldest leaves beyond `window_size`; the total becomes `cumulative`
    /// and the window's mean `window_mean`. A window that retains nothing
    /// has no mean, and the former one stays.
    pub fn update(
        &mut self,
        prediction_error: Scalar,
        window_size: usize,
        cumulative: Scalar,
        window_mean: Scalar,
    )
        ensures
            final(self).error_history@ == trail_pushed(
                old(self).error_history@,
                window_size as int,
                prediction_error,
            ),
            final(self).cumulative_error == cumulative,
            final(self).window_error == if final(self).error_history@.len() > 0 {
                window_mean
            } else {
                old(self).window_error
            },
            final(self).actor_id == old(self).actor_id,
            final(self).timestamp_ms == old(self).timestamp_ms,
    {
        self.cumulative_error = cumulative;
        push_trail(&mut self.error_history, window_size, prediction_error);
        if self.error_history.len() > 0 {
            self.window_error = window_mean;
        }
    }

    /// Forgets all errors.
    pub fn reset(&mut self)
        ensures
            final(self).blank(),
            final(self).actor_id == old(self).actor_id,
            final(self).timestamp_ms == old(self).timestamp_ms,
    {
        self.cumulative_error = Scalar { bits: ZERO_BITS };
        self.window_error = Scalar { bits: ZERO_BITS };
        self.error_history.clear();
    }
}

/// Whatever is taken in, a window never retains more than its size, and
/// what `window_with` previews is what `update` retains.
pub proof fn lemma_window_bounded(history: Seq<Scalar>, window_size: int, error: Scalar)
    requires
        0 <= window_size,
        history.len() <= window_size,
    ensures
        trail_pushed(history, window_size, error).len() <= window_size,
        window_size > 0 ==> trail_pushed(history, window_size, error).last() == error,
{
}

} // verus!
