//! The signal-resource pairing.
//!
//! An [`SsrSignalResource`] couples one value cell with one slot of a
//! [`CoReadyCoordinator`]. The read side is an asynchronous accessor run
//! by the host: it subscribes to the slot and, each time the state may
//! have changed, polls [`SsrSignalResource::try_read`] — which re-reads
//! the cell at that moment, never a value captured earlier, so a write
//! that races with the release of the wait is still observed.
//!
//! The write side is an [`SsrWriteSignal`]: acquiring it takes sender
//! evidence for the pair's slot, arming the wait; every mutation through
//! it completes the slot, and releasing it without writing completes the
//! slot too (unless the pair demands manual completion), so an abandoned
//! writer never leaves the read side stuck.
//!
//! Ordering contract: the write handle must be acquired before the
//! producing computation suspends on anything else. Acquired only after
//! such a suspension, the group's priming may already have released the
//! wait — the read side then resolves to the value the cell held at that
//! moment, typically the initial one, even if the writer later writes.
//! This is a documented misuse, not a detectable failure; it is exactly
//! what lets a pair with no writer at all resolve instead of hanging.

use vstd::prelude::*;

use crate::coordinator::{
    acquired_slot, completed_slot, dropped_sender_slot, fresh_slot, slot_released,
    CoReadyCoordinator, CoReadyModel, CoReadySubscription, ReadySender,
};

verus! {

/// What one poll of the read side returns, given the cell's value and the
/// paired slot's state at the moment of the poll: the value if the slot's
/// wait predicate holds, and nothing — keep waiting — otherwise.
pub open spec fn read_result<T>(value: T, m: CoReadyModel) -> Option<T> {
    if slot_released(m) {
        Some(value)
    } else {
        None
    }
}

/// A value cell paired with one readiness slot of a coordinated group.
///
/// The pairing is fixed for the pair's lifetime: only the contained value
/// and the slot's readiness state change.
pub struct SsrSignalResource<T> {
    slot: usize,
    value: T,
}

/// The write side of a pair: the underlying write access to the cell
/// together with sender evidence for the pair's slot.
///
/// Deliberately not cloneable: each handle stands for one acquisition,
/// and disposal is the explicit [`SsrWriteSignal::release`].
pub struct SsrWriteSignal {
    sender: ReadySender,
}

impl<T> SsrSignalResource<T> {
    /// The index of the slot this pair is coupled to.
    pub closed spec fn slot_id(&self) -> int {
        self.slot as int
    }

    /// The value the cell holds now.
    pub closed spec fn current(&self) -> T {
        self.value
    }

    /// The slot index, for routing change notifications in the host.
    pub fn slot(&self) -> (id: usize)
        ensures
            id == self.slot_id(),
    {
        self.slot
    }

    /// Creates a pair inside the scope of `coord`: registers a fresh slot
    /// and fills the cell with `initial`. Senders acquired from this pair
    /// complete the slot when released, so the read side resolves even if
    /// no writer ever writes.
    ///
    /// The coordinator is an explicit parameter: a pair can only be made
    /// while the caller holds the scope's coordinator, which is what makes
    /// a construction attempt outside any scope fail at the call site.
    pub fn new(coord: &mut CoReadyCoordinator, initial: T) -> (pair: Self)
        ensures
            pair.slot_id() == old(coord)@.len(),
            pair.current() == initial,
            final(coord)@ == old(coord)@.push(fresh_slot(false)),
    {
        let slot = coord.register(false);
        SsrSignalResource { slot, value: initial }
    }

    /// Creates a pair whose slot demands manual completion: once a write
    /// handle is acquired, releasing it does not complete the slot, and
    /// only an explicit completion ends the wait. Use of an acquired
    /// write handle is then compulsory, or the read side waits forever.
    pub fn new_must_notify(coord: &mut CoReadyCoordinator, initial: T) -> (pair: Self)
        ensures
            pair.slot_id() == old(coord)@.len(),
            pair.current() == initial,
            final(coord)@ == old(coord)@.push(fresh_slot(true)),
    {
        let slot = coord.register(true);
        SsrSignalResource { slot, value: initial }
    }

    /// Acquires the write side: takes sender evidence for the pair's slot,
    /// so that the paired read side keeps waiting past the group's priming
    /// until this handle writes or is released.
    ///
    /// Acquire it before the producing computation suspends on anything
    /// else; acquired after an internal suspension, the wait may already
    /// have been released and the intended value will not be seen by the
    /// read side (see the module documentation).
    pub fn write_only(&self, coord: &mut CoReadyCoordinator) -> (ws: SsrWriteSignal)
        requires
            self.slot_id() < old(coord)@.len(),
            old(coord)@[self.slot_id()].senders < u64::MAX,
        ensures
            ws.slot_id() == self.slot_id(),
            final(coord)@ == old(coord)@.update(
                self.slot_id(),
                acquired_slot(old(coord)@[self.slot_id()]),
            ),
    {
        let sender = coord.acquire_sender(self.slot);
        SsrWriteSignal { sender }
    }

    /// Subscribes the read side to the pair's slot. The host's accessor
    /// holds the subscription and polls [`SsrSignalResource::try_read`]
    /// whenever the state may have changed.
    pub fn subscribe(&self, coord: &CoReadyCoordinator) -> (sub: CoReadySubscription)
        requires
            self.slot_id() < coord@.len(),
        ensures
            sub@ == self.slot_id(),
    {
        coord.subscribe(self.slot)
    }

    /// One poll of the read side: if the pair's slot satisfies the wait
    /// predicate now, returns the value the cell holds now — re-read at
    /// this moment, not captured at subscription time — and otherwise
    /// reports that the wait goes on.
    pub fn try_read(&self, coord: &CoReadyCoordinator) -> (r: Option<&T>)
        requires
            self.slot_id() < coord@.len(),
        ensures
            (match r {
                Some(v) => Some(*v),
                None => None,
            }) == read_result(self.current(), coord@[self.slot_id()]),
    {
        if coord.is_released(self.slot) {
            Some(&self.value)
        } else {
            None
        }
    }

    /// Reads the cell directly, bypassing the readiness mechanism. This is
    /// the degenerate read used where no coordination is active, and the
    /// diagnostic view of the cell.
    pub fn read_now(&self) -> (v: &T)
        ensures
            *v == self.current(),
    {
        &self.value
    }

    /// Writes the cell without touching the slot: no completion is
    /// signalled and no sender is consulted. This is the bypass used to
    /// re-synchronize the cell outside the coordinated wait — clearing a
    /// portlet, or replaying a value after the wait has long resolved.
    pub fn set_untracked(&mut self, value: T)
        ensures
            final(self).slot_id() == old(self).slot_id(),
            final(self).current() == value,
    {
        self.value = value;
    }
}

impl SsrWriteSignal {
    /// The index of the slot this handle writes to.
    pub closed spec fn slot_id(&self) -> int {
        self.sender@
    }

    /// The slot index, for routing change notifications in the host.
    pub fn slot(&self) -> (id: usize)
        ensures
            id == self.slot_id(),
    {
        self.sender.slot()
    }

    /// Assigns `value` to the paired cell and completes the pair's slot:
    /// writing releases the wait, and the read side, re-reading the cell
    /// after release, observes exactly this value. Every mutation through
    /// the handle signals completion, not just the first one.
    pub fn set<T>(
        &self,
        pair: &mut SsrSignalResource<T>,
        coord: &mut CoReadyCoordinator,
        value: T,
    )
        requires
            self.slot_id() == old(pair).slot_id(),
            self.slot_id() < old(coord)@.len(),
        ensures
            final(pair).slot_id() == old(pair).slot_id(),
            final(pair).current() == value,
            final(coord)@ == old(coord)@.update(
                self.slot_id(),
                completed_slot(old(coord)@[self.slot_id()]),
            ),
    {
        pair.value = value;
        self.sender.complete(coord);
    }

    /// Signals completion without assigning: the mark-dirty path of the
    /// write side. A mutation made in place through the underlying cell
    /// must be followed by this, the completion half of "every mutating
    /// operation implies a completion signal".
    pub fn notify(&self, coord: &mut CoReadyCoordinator)
        requires
            self.slot_id() < old(coord)@.len(),
        ensures
            final(coord)@ == old(coord)@.update(
                self.slot_id(),
                completed_slot(old(coord)@[self.slot_id()]),
            ),
    {
        self.sender.complete(coord);
    }

    /// Releases the handle: the producer is done, whether or not it ever
    /// wrote. The slot's live-sender count drops, and unless the pair
    /// demands manual completion the slot completes — the "compute,
    /// decide not to write, let it go" path, which keeps the read side
    /// from waiting forever on an abandoned writer.
    ///
    /// Conversely, a handle that is neither used nor released keeps the
    /// paired read side waiting indefinitely: an accepted deadlock, not a
    /// detectable error.
    pub fn release(self, coord: &mut CoReadyCoordinator)
        requires
            self.slot_id() < old(coord)@.len(),
            old(coord)@[self.slot_id()].senders >= 1,
        ensures
            final(coord)@ == old(coord)@.update(
                self.slot_id(),
                dropped_sender_slot(old(coord)@[self.slot_id()]),
            ),
    {
        let SsrWriteSignal { sender } = self;
        sender.release(coord);
    }
}

} // verus!
