//! What can go wrong in the engine.

use vstd::prelude::*;

verus! {

/// Failure of an engine operation.
#[derive(Debug)]
pub enum DivergenceError {
    /// Two vectors that must have one length have two.
    DimensionMismatch { expected: usize, got: usize },
    /// A query named an entity that was never registered.
    UnknownActor(String),
    /// A vector that is no probability distribution.
    InvalidDistribution(String),
    /// Overflow, underflow or a NaN.
    NumericalError(String),
    /// A configuration that cannot be used.
    ConfigError(String),
    /// A snapshot that could not be written or read.
    SerializationError(String),
}

impl DivergenceError {
    /// Whether the caller may retry with other numbers.
    pub open spec fn recoverable(self) -> bool {
        self is NumericalError || self is InvalidDistribution
    }

    /// Whether the caller may retry with other numbers.
    pub fn is_recoverable(&self) -> (r: bool)
        ensures
            r == self.recoverable(),
    {
        match self {
            DivergenceError::NumericalError(_) => true,
            DivergenceError::InvalidDistribution(_) => true,
            _ => false,
        }
    }
}

/// What a comparison of two lengths owes its caller.
pub open spec fn dimension_check(expected: usize, got: usize) -> Result<(), DivergenceError> {
    if expected == got {
        Ok(())
    } else {
        Err(DivergenceError::DimensionMismatch { expected, got })
    }
}

/// Accepts two equal lengths and reports any other pair, with both
/// lengths. Every operation on two vectors starts here: lengths are never
/// padded or cut to fit.
pub fn check_dimensions(expected: usize, got: usize) -> (r: Result<(), DivergenceError>)
    ensures
        r == dimension_check(expected, got),
{
    if expected == got {
        Ok(())
    } else {
        Err(DivergenceError::DimensionMismatch { expected, got })
    }
}

/// Two lengths that differ are always reported, with both of them, and
/// two equal lengths never.
pub proof fn lemma_mismatch_is_reported(expected: usize, got: usize)
    ensures
        expected != got ==> dimension_check(expected, got) == Err::<(), DivergenceError>(
            DivergenceError::DimensionMismatch { expected, got },
        ),
        expected == got ==> dimension_check(expected, got) is Ok,
        dimension_check(expected, got) is Err ==> !dimension_check(expected, got)->Err_0.recoverable(),
{
}

} // verus!
