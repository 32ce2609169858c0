//! The coordinated readiness group, exercised synchronously: each test
//! drives a sequence of transitions and checks the wait predicate the
//! waiters would evaluate at each step.

use sync_ssr::coordinator::CoReadyCoordinator;
use sync_ssr::ready::ReadyFlag;

#[test]
fn flag_moves_forward_only() {
    let mut coord = CoReadyCoordinator::new();
    let id = coord.register(false);
    assert_eq!(coord.slot_flag(id), ReadyFlag::Unset);
    assert_eq!(coord.live_senders(id), 0);

    let sender = coord.acquire_sender(id);
    // acquisition changes no flag
    assert_eq!(coord.slot_flag(id), ReadyFlag::Unset);
    assert_eq!(coord.live_senders(id), 1);

    coord.notify();
    assert_eq!(coord.slot_flag(id), ReadyFlag::Primed);

    sender.complete(&mut coord);
    assert_eq!(coord.slot_flag(id), ReadyFlag::Completed);

    // neither a second completion, a second priming nor a release moves
    // the flag anywhere else
    sender.complete(&mut coord);
    assert_eq!(coord.slot_flag(id), ReadyFlag::Completed);
    coord.notify();
    assert_eq!(coord.slot_flag(id), ReadyFlag::Completed);
    sender.release(&mut coord);
    assert_eq!(coord.slot_flag(id), ReadyFlag::Completed);
    assert_eq!(coord.live_senders(id), 0);
}

#[test]
fn notify_releases_unsent_slot() {
    let mut coord = CoReadyCoordinator::new();
    let id = coord.register(false);
    let sub = coord.subscribe(id);
    assert!(!sub.wait_over(&coord));
    coord.notify();
    assert!(sub.wait_over(&coord));
}

#[test]
fn live_sender_blocks_release() {
    let mut coord = CoReadyCoordinator::new();
    let id = coord.register(false);
    let sender = coord.acquire_sender(id);
    let sub = coord.subscribe(id);
    coord.notify();
    assert!(!sub.wait_over(&coord));
    sender.complete(&mut coord);
    assert!(sub.wait_over(&coord));
}

#[test]
fn complete_twice_is_noop() {
    let mut coord = CoReadyCoordinator::new();
    let id = coord.register(false);
    let sender = coord.acquire_sender(id);
    let sub = coord.subscribe(id);
    sender.complete(&mut coord);
    assert!(sub.wait_over(&coord));
    sender.complete(&mut coord);
    assert!(sub.wait_over(&coord));
}

#[test]
fn notify_twice_is_idempotent() {
    let mut coord = CoReadyCoordinator::new();
    let unsent = coord.register(false);
    let manual = coord.register(true);
    coord.notify();
    coord.notify();
    assert!(coord.is_released(unsent));
    assert!(!coord.is_released(manual));
}

#[test]
fn slots_are_independent() {
    let mut coord = CoReadyCoordinator::new();
    let slot_a = coord.register(false);
    let slot_b = coord.register(false);
    let sender_a = coord.acquire_sender(slot_a);
    let sender_b = coord.acquire_sender(slot_b);
    coord.notify();
    assert!(!coord.is_released(slot_a));
    assert!(!coord.is_released(slot_b));

    sender_a.complete(&mut coord);
    assert!(coord.is_released(slot_a));
    assert!(!coord.is_released(slot_b));

    sender_b.release(&mut coord);
    assert!(coord.is_released(slot_b));
}

#[test]
fn released_sender_completes_by_default() {
    let mut coord = CoReadyCoordinator::new();
    let id = coord.register(false);
    let sender = coord.acquire_sender(id);
    assert!(!coord.is_released(id));
    sender.release(&mut coord);
    assert!(coord.is_released(id));
}

#[test]
fn manual_slot_requires_explicit_complete() {
    let mut coord = CoReadyCoordinator::new();
    let id = coord.register(true);
    let sender = coord.acquire_sender(id);
    coord.notify();
    assert!(!coord.is_released(id));
    // releasing the armed sender does not complete a manual slot
    let other = coord.acquire_sender(id);
    sender.release(&mut coord);
    assert!(!coord.is_released(id));
    other.complete(&mut coord);
    assert!(coord.is_released(id));
    other.release(&mut coord);
    assert!(coord.is_released(id));
}

#[test]
fn manual_slot_without_writer_never_releases_by_notify() {
    let mut coord = CoReadyCoordinator::new();
    let id = coord.register(true);
    coord.notify();
    assert!(!coord.is_released(id));
}

#[test]
fn late_acquired_sender_rearms_predicate() {
    let mut coord = CoReadyCoordinator::new();
    let id = coord.register(false);
    coord.notify();
    // released with no sender: a waiter polling now resolves
    assert!(coord.is_released(id));
    // a sender acquired only afterwards holds the predicate again,
    // but any wait that already resolved has already read its value
    let sender = coord.acquire_sender(id);
    assert!(!coord.is_released(id));
    sender.complete(&mut coord);
    assert!(coord.is_released(id));
    sender.release(&mut coord);
}

#[test]
fn completed_slot_stays_completed() {
    let mut coord = CoReadyCoordinator::new();
    let id = coord.register(false);
    let sender = coord.acquire_sender(id);
    sender.complete(&mut coord);
    coord.notify();
    assert!(coord.is_released(id));
    let late = coord.acquire_sender(id);
    // completion is terminal: later evidence does not reopen the wait
    assert!(coord.is_released(id));
    late.release(&mut coord);
    sender.release(&mut coord);
    assert!(coord.is_released(id));
}

#[test]
fn registration_appends_slots() {
    let mut coord = CoReadyCoordinator::new();
    assert_eq!(coord.slot_count(), 0);
    let first = coord.register(false);
    let second = coord.register(true);
    assert_eq!(first, 0);
    assert_eq!(second, 1);
    assert_eq!(coord.slot_count(), 2);
    let sub = coord.subscribe(first);
    assert_eq!(sub.slot(), first);
}

#[test]
fn slot_registered_after_notify_waits_for_completion() {
    let mut coord = CoReadyCoordinator::new();
    coord.notify();
    let id = coord.register(false);
    // the priming already happened; the late slot was not primed
    assert!(!coord.is_released(id));
    let sender = coord.acquire_sender(id);
    sender.complete(&mut coord);
    assert!(coord.is_released(id));
}
