//! Cancellation token: a single shared boolean signal, cleared at job start,
//! set by a cancel request, polled by the supervisor's read loop.

use vstd::prelude::*;

verus! {

/// The cancellation signal for the single active job.
///
/// One token suffices because at most one job runs at a time. The token is
/// cleared at the start of every job; any caller may set it; the read loop
/// polls it once per line.
pub struct CancelToken {
    pub cancelled: bool,
}

/// The token state after a cancel request, whatever it held before.
pub open spec fn after_cancel(t: CancelToken) -> CancelToken {
    CancelToken { cancelled: true }
}

/// The token state after a reset, whatever it held before.
pub open spec fn after_reset(t: CancelToken) -> CancelToken {
    CancelToken { cancelled: false }
}

impl CancelToken {
    /// A fresh token carries no cancellation request.
    pub fn new() -> (t: CancelToken)
        ensures
            !t.cancelled,
    {
        CancelToken { cancelled: false }
    }

    /// Clear the signal; done at the start of every job.
    pub fn reset(&mut self)
        ensures
            *final(self) == after_reset(*old(self)),
    {
        self.cancelled = false;
    }

    /// Request cancellation. Total: callable in any state, never an error.
    pub fn set(&mut self)
        ensures
            *final(self) == after_cancel(*old(self)),
    {
        self.cancelled = true;
    }

    /// Current state of the signal.
    pub fn is_set(&self) -> (r: bool)
        ensures
            r == self.cancelled,
    {
        self.cancelled
    }
}

/// Cancelling is idempotent: a second cancel request leaves the token exactly
/// as the first did.
pub proof fn lemma_cancel_idempotent(t: CancelToken)
    ensures
        after_cancel(after_cancel(t)) == after_cancel(t),
{
}

/// A cancel request issued while no job is running is harmless: every job
/// begins with a reset, and reset yields the same token whether or not a
/// stale cancel preceded it.
pub proof fn lemma_stale_cancel_invisible(t: CancelToken)
    ensures
        after_reset(after_cancel(t)) == after_reset(t),
{
}

} // verus!
