//! The laws of the readiness protocol.
//!
//! Each proof function states a guarantee of the coordination model over
//! the spec-level transitions of [`crate::coordinator`]: what the
//! operations of [`crate::coordinator::CoReadyCoordinator`],
//! [`crate::coordinator::ReadySender`] and the pairing of
//! [`crate::signal::SsrSignalResource`] do to a slot is pinned to those
//! transitions by their `ensures`, so these laws carry over to every
//! sequence of calls.

use vstd::prelude::*;

use crate::coordinator::{
    acquired_slot, completed_slot, dropped_sender_slot, fresh_slot, group_step, prime_all,
    primed_slot, slot_released, CoReadyModel,
};
use crate::ready::{ready_released, ReadyFlag};
use crate::signal::read_result;

verus! {

/// The single-shot wait resolves exactly on completion: a subscriber
/// keeps waiting while the state is unset or primed, and finds the wait
/// over once — and forever after — the state completes, since no
/// transition of [`crate::ready::Ready`] leaves `Completed`.
pub proof fn law_single_shot_resolves_on_completion(f: ReadyFlag)
    ensures
        ready_released(f) <==> f is Completed,
        !ready_released(ReadyFlag::Unset),
        !ready_released(ReadyFlag::Primed),
        ready_released(ReadyFlag::Completed),
{
}

/// Completion is terminal: once a slot has completed, no transition —
/// priming, acquiring a sender, releasing one, completing again — moves
/// its flag anywhere else, and its wait stays released. A subscriber that
/// arrives after completion therefore finds the wait already over, just
/// as one that was already waiting.
pub proof fn law_completed_is_terminal(m: CoReadyModel)
    requires
        m.flag is Completed,
    ensures
        primed_slot(m) == m,
        acquired_slot(m).flag is Completed,
        completed_slot(m) == m,
        m.senders >= 1 ==> dropped_sender_slot(m).flag is Completed,
        slot_released(m),
{
}

/// A slot, once registered, is never removed and never disturbed by a
/// later registration: registering appends, and every slot already in
/// the group keeps its state — and hence its wait state — exactly.
pub proof fn law_registration_preserves_slots(s: Seq<CoReadyModel>, manual_complete: bool, i: int)
    requires
        0 <= i < s.len(),
    ensures
        s.push(fresh_slot(manual_complete)).len() == s.len() + 1,
        s.push(fresh_slot(manual_complete))[i] == s[i],
        !slot_released(fresh_slot(manual_complete)),
{
}

/// The monotonicity invariant of the whole protocol: under any step any
/// caller can take — registering, priming, acquiring, completing or
/// releasing a sender anywhere in the group — a slot that has completed
/// is still there, still completed, and its wait stays released. No
/// reachable sequence of operations regresses a completion.
pub proof fn law_completion_invariant_under_step(
    s: Seq<CoReadyModel>,
    t: Seq<CoReadyModel>,
    id: int,
)
    requires
        group_step(s, t),
        0 <= id < s.len(),
        s[id].flag is Completed,
    ensures
        id < t.len(),
        t[id].flag is Completed,
        slot_released(t[id]),
{
    if exists|manual: bool| t == s.push(fresh_slot(manual)) {
        let manual = choose|manual: bool| t == s.push(fresh_slot(manual));
        assert(t[id] == s[id]);
    } else if t == prime_all(s) {
        assert(t[id] == primed_slot(s[id]));
    } else if exists|i: int| 0 <= i < s.len() && t == s.update(i, acquired_slot(s[i])) {
        let i = choose|i: int| 0 <= i < s.len() && t == s.update(i, acquired_slot(s[i]));
        assert(t[id] == if i == id {
            acquired_slot(s[id])
        } else {
            s[id]
        });
    } else if exists|i: int| 0 <= i < s.len() && t == s.update(i, completed_slot(s[i])) {
        let i = choose|i: int| 0 <= i < s.len() && t == s.update(i, completed_slot(s[i]));
        assert(t[id] == if i == id {
            completed_slot(s[id])
        } else {
            s[id]
        });
    } else {
        let i = choose|i: int|
            0 <= i < s.len() && s[i].senders >= 1 && t == s.update(
                i,
                dropped_sender_slot(s[i]),
            );
        assert(t[id] == if i == id {
            dropped_sender_slot(s[id])
        } else {
            s[id]
        });
    }
}

/// Completing is idempotent: a second completion changes nothing, and a
/// completed slot's wait is released. Completing twice is therefore a
/// no-op, never an error and never a visible regression.
pub proof fn law_complete_idempotent(m: CoReadyModel)
    ensures
        completed_slot(completed_slot(m)) == completed_slot(m),
        slot_released(completed_slot(m)),
{
}

/// Releasing every sender of a slot not armed for manual completion
/// completes it, however many senders were live: letting two senders go
/// one after the other completes on the first and is a flag no-op on the
/// second, mirroring the idempotence of completion.
pub proof fn law_release_all_senders_completes(m: CoReadyModel)
    requires
        !m.manual_armed,
        m.senders >= 1,
    ensures
        dropped_sender_slot(m).flag is Completed,
        slot_released(dropped_sender_slot(m)),
        m.senders >= 2 ==> dropped_sender_slot(dropped_sender_slot(m)).flag is Completed,
{
}

/// Priming is idempotent: notifying the group twice leaves every slot
/// exactly as one notification left it.
pub proof fn law_priming_idempotent(s: Seq<CoReadyModel>)
    ensures
        prime_all(prime_all(s)) == prime_all(s),
{
    assert(prime_all(prime_all(s)) =~= prime_all(s));
}

/// The group's priming releases the wait of every slot that has no live
/// sender and does not demand manual completion: a pair whose writer was
/// never acquired resolves — to the value its cell holds, the initial
/// one — instead of hanging.
pub proof fn law_notify_releases_unsent(s: Seq<CoReadyModel>, id: int)
    requires
        0 <= id < s.len(),
        s[id].senders == 0,
        !s[id].manual_complete,
    ensures
        slot_released(prime_all(s)[id]),
{
}

/// A slot with a live sender does not release before completing: as long
/// as a writer holds its evidence and has not written, the paired read
/// side keeps waiting — including forever, if the writer neither writes
/// nor releases. That hang is the accepted outcome of keeping a write
/// handle alive, not a failure the protocol can detect.
pub proof fn law_live_sender_blocks(m: CoReadyModel)
    requires
        m.senders >= 1,
        !(m.flag is Completed),
    ensures
        !slot_released(m),
{
}

/// A writer acquired before the group primes holds the wait through the
/// priming, and its write — every write completes — releases the wait
/// with the written value: a poll of the read side while the writer is
/// live returns nothing, and the poll after the write returns exactly
/// what was written, not what the cell held when the wait began.
pub proof fn law_armed_writer_holds_then_delivers<T>(m: CoReadyModel, initial: T, written: T)
    requires
        m == fresh_slot(false),
    ensures
        read_result(initial, primed_slot(acquired_slot(m))) is None,
        read_result(written, completed_slot(primed_slot(acquired_slot(m)))) == Some(written),
{
}

/// The documented ordering hazard: if the group primes while a slot has
/// no sender yet, the wait is released at once, and the poll of the read
/// side at that moment returns the value the cell holds then — the
/// initial one. A sender acquired only afterwards makes the predicate
/// hold the wait again, but the resolved read has already happened; the
/// value such a late writer sets is not the one that was observed.
pub proof fn law_late_acquired_writer_misses<T>(m: CoReadyModel, initial: T)
    requires
        m == fresh_slot(false),
    ensures
        read_result(initial, primed_slot(m)) == Some(initial),
        read_result(initial, acquired_slot(primed_slot(m))) is None,
{
}

/// A slot armed for manual completion releases its waiters only on an
/// explicit completion: releasing the sender drops the evidence but
/// completes nothing, and the wait holds even after the group primes.
pub proof fn law_manual_slot_waits_for_explicit_complete(m: CoReadyModel)
    requires
        m.manual_complete,
        m.manual_armed,
        m.senders == 1,
        !(m.flag is Completed),
    ensures
        !slot_released(dropped_sender_slot(m)),
        !slot_released(primed_slot(dropped_sender_slot(m))),
        slot_released(completed_slot(dropped_sender_slot(m))),
{
}

/// Slots are independent: a transition of one slot — completion, sender
/// acquisition, sender release — leaves every other slot of the group,
/// and hence its wait state, exactly as it was.
pub proof fn law_slots_independent(s: Seq<CoReadyModel>, id: int, other: int)
    requires
        0 <= id < s.len(),
        0 <= other < s.len(),
        other != id,
    ensures
        s.update(id, completed_slot(s[id]))[other] == s[other],
        s.update(id, acquired_slot(s[id]))[other] == s[other],
        s.update(id, dropped_sender_slot(s[id]))[other] == s[other],
        slot_released(s.update(id, completed_slot(s[id]))[other]) == slot_released(s[other]),
{
}

} // verus!
