//! Synchronization primitives that let a consumer placed early in a
//! server-rendered view tree wait for a value that is only produced by a
//! component placed later in the same tree.
//!
//! The crate is organised around three layers:
//!
//! * [`ready`] holds the single-shot readiness broadcast state: a
//!   [`ready::Ready`] value completes exactly once and every subscriber
//!   observing it afterwards finds the wait already over.
//! * [`coordinator`] holds the coordinated variant: a
//!   [`coordinator::CoReadyCoordinator`] owns a growing set of independent
//!   readiness slots, hands out sender evidence for pending writes, and
//!   primes every slot that has not completed when the enclosing scope ends.
//! * [`signal`] pairs one coordinated slot with a value cell, producing the
//!   read side (which resolves to the latest cell value once the slot's wait
//!   predicate holds) and the write side (whose mutations complete the slot).
//!
//! [`portlet`] is a thin application of the signal-resource pairing to an
//!   optional payload, for "fill this placeholder later" interfaces.
//!
//! All state is held by value and threaded explicitly: the caller that runs
//! the coordination scope owns the [`coordinator::CoReadyCoordinator`] and
//! passes it to each operation. An asynchronous host wraps these values in
//! its own shared cells and re-evaluates the wait predicates whenever the
//! state changes; every decision those waiters make is a verified function
//! of this crate.

pub mod coordinator;
pub mod laws;
pub mod portlet;
pub mod ready;
pub mod signal;
