//! The bounded-retry rule of the unattended restore-all operation.
//!
//! Restoring every output's recorded wallpaper runs unattended (for
//! instance right after login, while the compositor may not be ready), so
//! each output's apply is retried a fixed number of times with a fixed
//! delay; failures stay isolated per output and never stop the whole run.

use vstd::prelude::*;

verus! {

/// How often one output's restore is attempted before giving up on it.
pub const MAX_RESTORE_ATTEMPTS: u32 = 5;

/// The delay, in seconds, between two attempts for the same output.
pub const RESTORE_BACKOFF_SECS: u64 = 1;

/// What to do after one attempt of a retried operation.
#[derive(Debug, Clone, Copy, PartialEq, Eq, Structural)]
pub enum RetryDecision {
    /// The attempt succeeded; move on.
    Done,
    /// The attempt failed but attempts remain; wait out the backoff and
    /// try again.
    RetryAfterDelay,
    /// The attempt failed and the budget is spent; give up on this
    /// operation and continue with the next.
    GiveUp,
}

/// Decides how a bounded-retry loop goes on after an attempt: `failures`
/// counts the failed attempts so far, this one included when it failed.
pub fn retry_decision(failures: u32, max_attempts: u32, succeeded: bool) -> (r: RetryDecision)
    ensures
        succeeded ==> r is Done,
        !succeeded && failures >= max_attempts ==> r is GiveUp,
        !succeeded && failures < max_attempts ==> r is RetryAfterDelay,
{
    if succeeded {
        RetryDecision::Done
    } else if failures >= max_attempts {
        RetryDecision::GiveUp
    } else {
        RetryDecision::RetryAfterDelay
    }
}

} // verus!
