//! A generic portlet context: the signal-resource pairing applied to an
//! optional payload.
//!
//! A portlet is a placeholder rendered early in the view tree whose data,
//! if any, is produced later. [`PortletCtx`] keeps an
//! [`SsrSignalResource`] over `Option<T>`: the read side resolves to
//! `Some` payload once a producer writes one, and to `None` — nothing to
//! show — once the scope's priming establishes that no producer will
//! write. Clearing the portlet writes `None` through the bypass, without
//! touching the readiness slot, as done outside the coordinated wait.

use vstd::prelude::*;

use crate::coordinator::{fresh_slot, CoReadyCoordinator, CoReadySubscription};
use crate::signal::{read_result, SsrSignalResource, SsrWriteSignal};

verus! {

/// An optional-payload container for "fill this placeholder later"
/// interfaces, backed by one slot of a coordinated group.
pub struct PortletCtx<T> {
    inner: SsrSignalResource<Option<T>>,
}

impl<T> PortletCtx<T> {
    /// The index of the slot the underlying pair is coupled to.
    pub closed spec fn slot_id(&self) -> int {
        self.inner.slot_id()
    }

    /// The payload the underlying cell holds now.
    pub closed spec fn current(&self) -> Option<T> {
        self.inner.current()
    }

    /// The slot index, for routing change notifications in the host.
    pub fn slot(&self) -> (id: usize)
        ensures
            id == self.slot_id(),
    {
        self.inner.slot()
    }

    /// Creates an empty portlet context inside the scope of `coord`. The
    /// payload starts as `None`; with no writer ever acquired, the read
    /// side resolves to `None` once the group primes.
    pub fn new(coord: &mut CoReadyCoordinator) -> (ctx: Self)
        ensures
            ctx.slot_id() == old(coord)@.len(),
            ctx.current() is None,
            final(coord)@ == old(coord)@.push(fresh_slot(false)),
    {
        PortletCtx { inner: SsrSignalResource::new(coord, None) }
    }

    /// Acquires the write side of the underlying pair, arming the wait of
    /// the portlet's read side. The same ordering contract applies as for
    /// [`SsrSignalResource::write_only`]: acquire before suspending.
    pub fn write_only(&self, coord: &mut CoReadyCoordinator) -> (ws: SsrWriteSignal)
        requires
            self.slot_id() < old(coord)@.len(),
            old(coord)@[self.slot_id()].senders < u64::MAX,
        ensures
            ws.slot_id() == self.slot_id(),
            final(coord)@ == old(coord)@.update(
                self.slot_id(),
                crate::coordinator::acquired_slot(old(coord)@[self.slot_id()]),
            ),
    {
        self.inner.write_only(coord)
    }

    /// Stores the payload a producer fetched — `None` when it decided
    /// there is nothing to show — and completes the portlet's slot, so
    /// the read side resolves to exactly this payload.
    pub fn set(
        &mut self,
        ws: &SsrWriteSignal,
        coord: &mut CoReadyCoordinator,
        value: Option<T>,
    )
        requires
            ws.slot_id() == old(self).slot_id(),
            ws.slot_id() < old(coord)@.len(),
        ensures
            final(self).slot_id() == old(self).slot_id(),
            final(self).current() == value,
            final(coord)@ == old(coord)@.update(
                ws.slot_id(),
                crate::coordinator::completed_slot(old(coord)@[ws.slot_id()]),
            ),
    {
        ws.set(&mut self.inner, coord, value);
    }

    /// Subscribes the portlet's read side to its slot.
    pub fn subscribe(&self, coord: &CoReadyCoordinator) -> (sub: CoReadySubscription)
        requires
            self.slot_id() < coord@.len(),
        ensures
            sub@ == self.slot_id(),
    {
        self.inner.subscribe(coord)
    }

    /// One poll of the portlet's read side: the payload to render once
    /// the wait is over, `None` (still waiting) otherwise.
    pub fn try_read(&self, coord: &CoReadyCoordinator) -> (r: Option<&Option<T>>)
        requires
            self.slot_id() < coord@.len(),
        ensures
            (match r {
                Some(v) => Some(*v),
                None => None,
            }) == read_result(self.current(), coord@[self.slot_id()]),
    {
        self.inner.try_read(coord)
    }

    /// Reads the payload directly, bypassing the readiness mechanism.
    pub fn read_now(&self) -> (v: &Option<T>)
        ensures
            *v == self.current(),
    {
        self.inner.read_now()
    }

    /// Clears the portlet: writes `None` through the bypass, signalling no
    /// completion. Re-rendering then shows nothing. Meant for cleanup
    /// outside the coordinated wait.
    pub fn clear(&mut self)
        ensures
            final(self).slot_id() == old(self).slot_id(),
            final(self).current() is None,
    {
        self.inner.set_untracked(None);
    }
}

} // verus!
