//! The blocking-call dispatcher's lock discipline.
//!
//! The host serializes all native execution under one cooperative lock. A
//! long-running engine call (deep search, full move generation, board-wide
//! scans) must not hold that lock while it runs, or it starves every other
//! host activity. The discipline is a bracket: release the lock, run the one
//! unit of work on the same execution stream, reacquire the lock, and only
//! then touch anything host-managed. A unit of work must never unwind past
//! the bracket: an abnormal termination is caught while the lock is still
//! released and comes back as an ordinary failure value.
//!
//! [`HostLock`] models the lock's held/released state; the contracts of
//! [`HostLock::release_for_dispatch`] and [`finish_dispatch`] force the
//! bracket order: a dispatch can only start with the lock held, and control
//! only returns with the lock held again, whatever the unit of work did.

use vstd::prelude::*;

use crate::host_error::HostError;

verus! {

/// The host's global execution lock, as this layer observes it: held by the
/// current execution stream, or released for the span of one dispatched call.
pub struct HostLock {
    held: bool,
}

impl HostLock {
    /// Whether the current execution stream holds the lock.
    pub closed spec fn is_held(&self) -> bool {
        self.held
    }

    /// The lock as a native call finds it on entry: held.
    pub fn new() -> (r: HostLock)
        ensures
            r.is_held(),
    {
        HostLock { held: true }
    }

    pub fn holds(&self) -> (r: bool)
        ensures
            r == self.is_held(),
    {
        self.held
    }

    /// Releases the lock for the span of one unit of work. Only a holder may
    /// release it.
    pub fn release_for_dispatch(&mut self)
        requires
            old(self).is_held(),
        ensures
            !final(self).is_held(),
    {
        self.held = false;
    }

    /// Reacquires the lock after the unit of work has finished or been torn
    /// down; it must have been released by the matching bracket opening.
    pub fn reacquire_after_dispatch(&mut self)
        requires
            !old(self).is_held(),
        ensures
            final(self).is_held(),
    {
        self.held = true;
    }
}

/// How one dispatched unit of work came out: it completed with a value, or it
/// terminated abnormally and was caught, leaving a message.
pub enum WorkOutcome<T> {
    Completed(T),
    Aborted(String),
}

/// Whether a host-visible result reflects one unit of work's outcome: a
/// completed work's value handed through unchanged, an abnormal termination
/// turned into a failure carrying the caught message verbatim.
pub open spec fn outcome_reflected<T>(outcome: WorkOutcome<T>, result: Result<T, HostError>) -> bool {
    match outcome {
        WorkOutcome::Completed(v) => result matches Ok(rv) && rv == v,
        WorkOutcome::Aborted(m) => result matches Err(e) && e.message == m,
    }
}

/// Closes a dispatch bracket. The lock is reacquired first; only then does
/// the outcome become a host-visible value: a completed work's result is
/// handed through unchanged, and an abnormal termination becomes a host
/// failure carrying the caught message verbatim — it never unwinds further.
pub fn finish_dispatch<T>(lock: &mut HostLock, outcome: WorkOutcome<T>) -> (r: Result<
    T,
    HostError,
>)
    requires
        !old(lock).is_held(),
    ensures
        final(lock).is_held(),
        outcome_reflected(outcome, r),
{
    lock.reacquire_after_dispatch();
    match outcome {
        WorkOutcome::Completed(v) => Ok(v),
        WorkOutcome::Aborted(m) => Err(crate::host_error::translate_failure(m)),
    }
}

/// Dispatcher safety over a whole sequence of calls: starting with the lock
/// held, every bracket observes it held immediately before its dispatch and
/// immediately after its return, the in-between span runs released, and every
/// outcome — completed or aborted — comes back as a value, outcome by
/// outcome in order.
pub fn dispatch_sequence<T>(lock: &mut HostLock, outcomes: Vec<WorkOutcome<T>>) -> (r: Vec<
    Result<T, HostError>,
>)
    requires
        old(lock).is_held(),
    ensures
        final(lock).is_held(),
        r@.len() == outcomes@.len(),
        forall|i: int|
            0 <= i < r@.len() ==> #[trigger] outcome_reflected(outcomes@[i], r@[i]),
{
    let ghost all = outcomes@;
    let mut rest = outcomes;
    let mut results: Vec<Result<T, HostError>> = Vec::new();
    while rest.len() > 0
        invariant
            lock.is_held(),
            all.len() == results@.len() + rest@.len(),
            all.skip(results@.len() as int) == rest@,
            forall|i: int|
                0 <= i < results@.len() ==> #[trigger] outcome_reflected(all[i], results@[i]),
        decreases rest@.len(),
    {
        let outcome = rest.remove(0);
        proof {
            assert(all[results@.len() as int] == outcome);
            assert(all.skip(results@.len() as int).skip(1) =~= all.skip(results@.len() as int + 1));
        }
        lock.release_for_dispatch();
        let result = finish_dispatch(lock, outcome);
        results.push(result);
    }
    results
}

} // verus!
