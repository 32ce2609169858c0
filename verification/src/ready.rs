//! The single-shot readiness broadcast state.
//!
//! A [`Ready`] value records whether the completion event of one
//! synchronization scope has happened. It completes exactly once, logically:
//! further completions are no-ops on an already-completed state. Waiters do
//! not capture the state at subscription time; they re-check
//! [`Ready::released`] against the latest state every time it may have
//! changed, so a subscriber that arrives after completion finds the wait
//! already over.

use vstd::prelude::*;

verus! {

/// The tri-state flag of one readiness state.
///
/// The flag only ever moves forward: `Unset` to `Primed` or `Completed`,
/// and `Primed` to `Completed`. Once `Completed` it never regresses; the
/// laws module proves this of every transition.
#[derive(Clone, Copy, Debug, PartialEq, Eq, Structural)]
pub enum ReadyFlag {
    /// No signal has been given yet.
    Unset,
    /// The enclosing scope has finished registering writers; no further
    /// senders are coming from it.
    Primed,
    /// The completion event has happened; the value guarded by this state
    /// is final and may be read.
    Completed,
}

/// The wait predicate of the single-shot state: the wait is over exactly
/// when the completion event has happened. Unlike the coordinated
/// variant, nothing else — no priming, no sender bookkeeping — ends it.
pub open spec fn ready_released(f: ReadyFlag) -> bool {
    f is Completed
}

/// A single-shot, multi-subscriber readiness state.
///
/// The host that runs waiters concurrently keeps the one live `Ready` in a
/// shared cell of its own; each waiter re-evaluates [`Ready::released`]
/// on the current contents of that cell whenever it is woken.
pub struct Ready {
    flag: ReadyFlag,
}

impl View for Ready {
    type V = ReadyFlag;

    closed spec fn view(&self) -> ReadyFlag {
        self.flag
    }
}

impl Ready {
    /// Creates a fresh readiness state on which no signal has been given.
    pub fn new() -> (r: Ready)
        ensures
            r@ is Unset,
    {
        Ready { flag: ReadyFlag::Unset }
    }

    /// Records the completion event. Completing an already-completed state
    /// leaves it completed: the transition is idempotent and never fails.
    pub fn complete(&mut self)
        ensures
            final(self)@ is Completed,
    {
        self.flag = ReadyFlag::Completed;
    }

    /// The wait predicate of a subscription to this state: the wait is over
    /// exactly when the completion event has happened.
    pub fn released(&self) -> (r: bool)
        ensures
            r == ready_released(self@),
    {
        self.flag == ReadyFlag::Completed
    }
}

/// The decision a subscription makes each time it observes the state a
/// handle points to.
///
/// A handle may have no backing state at all (the waiter was created
/// outside any synchronization scope); such a subscription must never
/// block, so the wait is immediately over. With a backing state the wait
/// is over exactly when that state has completed.
pub fn subscription_wait_over(state: Option<&Ready>) -> (r: bool)
    ensures
        r == match state {
            None => true,
            Some(s) => ready_released(s@),
        },
{
    match state {
        None => true,
        Some(s) => s.released(),
    }
}

} // verus!
