//! Typed failures of the engine.  Scoring and payout computation return
//! these instead of aborting, so a caller can skip one malformed task and
//! keep going with the rest of the population.

use vstd::prelude::*;

verus! {

/// What went wrong while scoring a task or computing a payout.
#[derive(Clone, Copy, Debug, PartialEq, Eq, Structural)]
pub enum EngineError {
    /// A settings value was missing or unparsable.
    Configuration,
    /// The monthly task estimate is zero, leaving the base value undefined.
    Arithmetic,
    /// A task breaks the temporal-mode invariant: a due date without lead
    /// days, lead days without a due date, or a due date combined with a
    /// repeat interval.
    InvariantViolation,
}

impl EngineError {
    /// A short, fixed description of the failure, for diagnostics.
    pub fn describe(&self) -> (r: &'static str)
        ensures
            *self is Configuration ==> r@ == "settings value missing or unparsable"@,
            *self is Arithmetic ==> r@ == "monthly task estimate is zero"@,
            *self is InvariantViolation ==> r@ == "task breaks the temporal-mode invariant"@,
    {
        match self {
            EngineError::Configuration => "settings value missing or unparsable",
            EngineError::Arithmetic => "monthly task estimate is zero",
            EngineError::InvariantViolation => "task breaks the temporal-mode invariant",
        }
    }
}

} // verus!
