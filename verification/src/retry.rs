//! Retrying an operation with backoff: what follows each attempt.
//!
//! The waits between attempts grow by a floating-point multiplier and are
//! computed by the caller; the decision to stop or go on is made here.
use vstd::prelude::*;

verus! {

/// What follows an attempt.
#[derive(Clone, Copy, Debug, PartialEq, Eq, Structural)]
pub enum RetryAction {
    /// The attempt succeeded: its result is returned.
    Done,
    /// The attempt failed and attempts remain: wait the delay that follows
    /// this attempt, then try again.
    WaitThenRetry(u32),
    /// The last allowed attempt failed: its error is returned.
    GiveUp,
}

/// What follows attempt `attempt` (counted from 1) of at most
/// `max_attempts`, given whether it succeeded.
pub fn retry_next(attempt: u32, max_attempts: u32, succeeded: bool) -> (r: RetryAction)
    requires
        1 <= attempt <= max_attempts,
    ensures
        r == (if succeeded {
            RetryAction::Done
        } else if attempt < max_attempts {
            RetryAction::WaitThenRetry(attempt)
        } else {
            RetryAction::GiveUp
        }),
{
    if succeeded {
        RetryAction::Done
    } else if attempt < max_attempts {
        RetryAction::WaitThenRetry(attempt)
    } else {
        RetryAction::GiveUp
    }
}

} // verus!
