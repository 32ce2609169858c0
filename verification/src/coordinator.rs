//! The coordinated readiness group.
//!
//! A [`CoReadyCoordinator`] owns a dynamically growing set of independent
//! readiness slots. Each slot carries the tri-state flag of
//! [`crate::ready::ReadyFlag`] together with a count of live senders: the
//! pieces of evidence, handed out as [`ReadySender`] values, that some
//! producer still intends to complete the slot.
//!
//! When the enclosing scope ends, [`CoReadyCoordinator::notify`] primes
//! every slot that has not completed. Whether a waiter may stop waiting is
//! decided by [`slot_released`], evaluated against the state current at
//! wait time — never against a snapshot the notifier took — so a sender
//! acquired before the scope ended keeps its waiters waiting even though
//! the slot is primed.
//!
//! Sender disposal is an explicit call, [`ReadySender::release`], so every
//! exit path of a producer can release its evidence; by default releasing
//! completes the slot, unless the slot was armed for manual completion.

use vstd::prelude::*;

use crate::ready::ReadyFlag;

verus! {

/// The mathematical state of one readiness slot.
pub ghost struct CoReadyModel {
    /// The tri-state readiness flag.
    pub flag: ReadyFlag,
    /// How many senders are live: acquired and not yet released.
    pub senders: nat,
    /// Whether the slot was configured for manual completion: releasing a
    /// sender of such a slot does not complete it.
    pub manual_complete: bool,
    /// Whether manual completion is armed: set once the first sender is
    /// acquired on a manually-completed slot.
    pub manual_armed: bool,
}

/// The state of a slot that was just registered: no signal, no senders,
/// manual completion configured but not armed.
pub open spec fn fresh_slot(manual_complete: bool) -> CoReadyModel {
    CoReadyModel {
        flag: ReadyFlag::Unset,
        senders: 0,
        manual_complete,
        manual_armed: false,
    }
}

/// The effect of the group-wide priming notification on one slot: a slot
/// that has not completed becomes primed; a completed slot is untouched.
pub open spec fn primed_slot(m: CoReadyModel) -> CoReadyModel {
    if m.flag is Completed {
        m
    } else {
        CoReadyModel { flag: ReadyFlag::Primed, ..m }
    }
}

/// The effect of the priming notification on the whole group.
pub open spec fn prime_all(s: Seq<CoReadyModel>) -> Seq<CoReadyModel> {
    s.map_values(|m: CoReadyModel| primed_slot(m))
}

/// The effect of acquiring a sender: one more piece of live evidence, and
/// a manually-completed slot becomes armed. The flag itself is untouched;
/// acquisition never completes or primes anything.
pub open spec fn acquired_slot(m: CoReadyModel) -> CoReadyModel {
    CoReadyModel {
        senders: m.senders + 1,
        manual_armed: m.manual_armed || m.manual_complete,
        ..m
    }
}

/// The effect of completing a slot: the flag becomes `Completed`, whatever
/// it was. Completion is idempotent and touches nothing else.
pub open spec fn completed_slot(m: CoReadyModel) -> CoReadyModel {
    CoReadyModel { flag: ReadyFlag::Completed, ..m }
}

/// The effect of releasing a sender: one piece of evidence fewer, and —
/// unless the slot is armed for manual completion — the release itself
/// completes the slot, so that an abandoned producer never leaves its
/// waiters stuck.
pub open spec fn dropped_sender_slot(m: CoReadyModel) -> CoReadyModel {
    CoReadyModel {
        senders: (m.senders - 1) as nat,
        flag: if m.manual_armed {
            m.flag
        } else {
            ReadyFlag::Completed
        },
        ..m
    }
}

/// The wait predicate of one slot: a waiter may stop waiting when the slot
/// has completed, or when it is primed with no live sender and is not
/// configured for manual completion.
///
/// The live-sender count is part of the predicate, checked by the waiter
/// against the state current at wait time, precisely so that a sender
/// acquired before the group primes keeps the wait in force.
pub open spec fn slot_released(m: CoReadyModel) -> bool {
    ||| m.flag is Completed
    ||| (!m.manual_complete && m.flag is Primed && m.senders == 0)
}

/// One step of the coordination protocol: everything any caller can do
/// to a group — register a slot, prime the group, or acquire, complete
/// or release a sender on one slot. Every mutating operation of
/// [`CoReadyCoordinator`] and [`ReadySender`] takes the group from `s`
/// to some `t` with `group_step(s, t)`.
pub open spec fn group_step(s: Seq<CoReadyModel>, t: Seq<CoReadyModel>) -> bool {
    ||| (exists|manual: bool| t == s.push(fresh_slot(manual)))
    ||| t == prime_all(s)
    ||| (exists|id: int|
        0 <= id < s.len() && t == s.update(id, acquired_slot(s[id])))
    ||| (exists|id: int|
        0 <= id < s.len() && t == s.update(id, completed_slot(s[id])))
    ||| (exists|id: int|
        0 <= id < s.len() && s[id].senders >= 1 && t == s.update(
            id,
            dropped_sender_slot(s[id]),
        ))
}

/// One readiness slot, as stored by the coordinator.
#[derive(Clone, Copy)]
pub struct CoReady {
    flag: ReadyFlag,
    senders: u64,
    manual_complete: bool,
    manual_armed: bool,
}

impl View for CoReady {
    type V = CoReadyModel;

    closed spec fn view(&self) -> CoReadyModel {
        CoReadyModel {
            flag: self.flag,
            senders: self.senders as nat,
            manual_complete: self.manual_complete,
            manual_armed: self.manual_armed,
        }
    }
}

/// Manages the registered slots of one synchronization scope.
///
/// Slots are registered while the scope is open and are never removed;
/// a slot is addressed by the index [`CoReadyCoordinator::register`]
/// returned for it. Priming happens once, at the natural exit point of
/// the scope, after everything that might acquire a sender has run; a
/// slot registered after that will never be primed and resolves only by
/// explicit completion.
pub struct CoReadyCoordinator {
    slots: Vec<CoReady>,
}

impl View for CoReadyCoordinator {
    type V = Seq<CoReadyModel>;

    closed spec fn view(&self) -> Seq<CoReadyModel> {
        self.slots@.map_values(|s: CoReady| s@)
    }
}

/// Evidence that a producer still intends to complete one slot: while any
/// sender for a slot is live, the slot's waiters keep waiting past the
/// group's priming.
///
/// There is no implicit disposal: a producer that decides not to write
/// calls [`ReadySender::release`], which by default completes the slot on
/// its behalf. The value is deliberately not cloneable; each piece of
/// evidence is acquired through [`CoReadyCoordinator::acquire_sender`].
pub struct ReadySender {
    slot: usize,
}

impl View for ReadySender {
    type V = int;

    closed spec fn view(&self) -> int {
        self.slot as int
    }
}

/// A subscription to one slot of a coordinated group, held by a waiter.
///
/// The subscription captures no state: each time the waiter is woken it
/// re-evaluates [`CoReadySubscription::wait_over`] against the
/// coordinator's current state, never against a value captured when the
/// subscription was made.
#[derive(Clone, Copy)]
pub struct CoReadySubscription {
    slot: usize,
}

impl View for CoReadySubscription {
    type V = int;

    closed spec fn view(&self) -> int {
        self.slot as int
    }
}

impl CoReadyCoordinator {
    /// Creates a coordinator with no registered slots.
    pub fn new() -> (c: CoReadyCoordinator)
        ensures
            c@ == Seq::<CoReadyModel>::empty(),
    {
        let c = CoReadyCoordinator { slots: Vec::new() };
        proof {
            assert(c@ =~= Seq::<CoReadyModel>::empty());
        }
        c
    }

    /// How many slots have been registered.
    pub fn slot_count(&self) -> (n: usize)
        ensures
            n == self@.len(),
    {
        self.slots.len()
    }

    /// Registers a new slot and returns its index. The slot starts with no
    /// signal and no senders; if `manual_complete` is set, releasing a
    /// sender acquired from it will not complete it, and only an explicit
    /// [`ReadySender::complete`] ends its wait.
    pub fn register(&mut self, manual_complete: bool) -> (id: usize)
        ensures
            id == old(self)@.len(),
            final(self)@ == old(self)@.push(fresh_slot(manual_complete)),
            group_step(old(self)@, final(self)@),
    {
        let id = self.slots.len();
        self.slots.push(CoReady {
            flag: ReadyFlag::Unset,
            senders: 0,
            manual_complete,
            manual_armed: false,
        });
        proof {
            assert(self@ =~= old(self)@.push(fresh_slot(manual_complete)));
        }
        id
    }

    /// Primes every slot that has not completed. Called once, at the exit
    /// point of the enclosing scope; calling it again only re-asserts
    /// `Primed` on slots that still have not completed.
    ///
    /// Priming does not consult the live-sender counts: whether a waiter
    /// may stop is decided by [`slot_released`] at wait time, so a sender
    /// acquired before this call keeps its slot's waiters waiting.
    pub fn notify(&mut self)
        ensures
            final(self)@ == prime_all(old(self)@),
            group_step(old(self)@, final(self)@),
    {
        let n = self.slots.len();
        let mut i: usize = 0;
        while i < n
            invariant
                n == self.slots.len(),
                n == old(self).slots.len(),
                forall|j: int| 0 <= j < i ==> self.slots@[j]@ == primed_slot(old(self)@[j]),
                forall|j: int| i <= j < n ==> self.slots@[j] == old(self).slots@[j],
            decreases n - i,
        {
            let mut s = self.slots[i];
            if !matches!(s.flag, ReadyFlag::Completed) {
                s.flag = ReadyFlag::Primed;
            }
            self.slots.set(i, s);
            i = i + 1;
        }
        proof {
            assert(self@ =~= prime_all(old(self)@));
        }
    }

    /// Acquires sender evidence for the slot `id`: its waiters will keep
    /// waiting past the group's priming until the sender completes or is
    /// released. Acquisition itself changes no flag. On a slot configured
    /// for manual completion it arms manual completion.
    pub fn acquire_sender(&mut self, id: usize) -> (sender: ReadySender)
        requires
            id < old(self)@.len(),
            old(self)@[id as int].senders < u64::MAX,
        ensures
            sender@ == id,
            final(self)@ == old(self)@.update(id as int, acquired_slot(old(self)@[id as int])),
            group_step(old(self)@, final(self)@),
    {
        let mut s = self.slots[id];
        s.senders = s.senders + 1;
        if s.manual_complete && !s.manual_armed {
            s.manual_armed = true;
        }
        self.slots.set(id, s);
        proof {
            assert(self@ =~= old(self)@.update(id as int, acquired_slot(old(self)@[id as int])));
        }
        ReadySender { slot: id }
    }

    /// Subscribes a waiter to the slot `id`.
    pub fn subscribe(&self, id: usize) -> (sub: CoReadySubscription)
        requires
            id < self@.len(),
        ensures
            sub@ == id,
    {
        CoReadySubscription { slot: id }
    }

    /// The readiness flag the slot `id` holds now.
    pub fn slot_flag(&self, id: usize) -> (f: ReadyFlag)
        requires
            id < self@.len(),
        ensures
            f == self@[id as int].flag,
    {
        self.slots[id].flag
    }

    /// How many senders of the slot `id` are live: acquired and not yet
    /// released.
    pub fn live_senders(&self, id: usize) -> (n: u64)
        requires
            id < self@.len(),
        ensures
            n == self@[id as int].senders,
    {
        self.slots[id].senders
    }

    /// Whether the slot `id` currently satisfies the wait predicate.
    pub fn is_released(&self, id: usize) -> (r: bool)
        requires
            id < self@.len(),
        ensures
            r == slot_released(self@[id as int]),
    {
        let s = &self.slots[id];
        matches!(s.flag, ReadyFlag::Completed)
            || (!s.manual_complete && matches!(s.flag, ReadyFlag::Primed) && s.senders == 0)
    }
}

impl ReadySender {
    /// The index of the slot this evidence belongs to.
    pub fn slot(&self) -> (id: usize)
        ensures
            id == self@,
    {
        self.slot
    }

    /// Completes the slot: its flag becomes `Completed` and every current
    /// and future waiter finds the wait over. Completing twice is a no-op
    /// on the flag, never an error. The sender stays live; release it
    /// separately when the producer is done with it.
    pub fn complete(&self, coord: &mut CoReadyCoordinator)
        requires
            self@ < old(coord)@.len(),
        ensures
            final(coord)@ == old(coord)@.update(self@, completed_slot(old(coord)@[self@])),
            group_step(old(coord)@, final(coord)@),
    {
        let mut s = coord.slots[self.slot];
        s.flag = ReadyFlag::Completed;
        coord.slots.set(self.slot, s);
        proof {
            assert(coord@ =~= old(coord)@.update(self@, completed_slot(old(coord)@[self@])));
        }
    }

    /// Releases this evidence: the slot's live-sender count drops by one,
    /// and — unless the slot is armed for manual completion — the slot is
    /// completed, so a producer that lets its sender go without writing
    /// never leaves the paired waiters stuck.
    pub fn release(self, coord: &mut CoReadyCoordinator)
        requires
            self@ < old(coord)@.len(),
            old(coord)@[self@].senders >= 1,
        ensures
            final(coord)@ == old(coord)@.update(self@, dropped_sender_slot(old(coord)@[self@])),
            group_step(old(coord)@, final(coord)@),
    {
        let mut s = coord.slots[self.slot];
        s.senders = s.senders - 1;
        if !s.manual_armed {
            s.flag = ReadyFlag::Completed;
        }
        coord.slots.set(self.slot, s);
        proof {
            assert(coord@ =~= old(coord)@.update(self@, dropped_sender_slot(old(coord)@[self@])));
        }
    }
}

impl CoReadySubscription {
    /// The index of the slot this subscription waits on.
    pub fn slot(&self) -> (id: usize)
        ensures
            id == self@,
    {
        self.slot
    }

    /// The wait decision, re-evaluated against the coordinator's current
    /// state each time the waiter is woken: the wait is over exactly when
    /// [`slot_released`] holds of the slot now.
    pub fn wait_over(&self, coord: &CoReadyCoordinator) -> (r: bool)
        requires
            self@ < coord@.len(),
        ensures
            r == slot_released(coord@[self@]),
    {
        coord.is_released(self.slot)
    }
}

} // verus!
