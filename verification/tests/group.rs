use completion_group::deadline::{wait_deadline, Interval, WaitError, DEADLINE_FOREVER};
use completion_group::group::{Group, WaitStep};

#[test]
fn fresh_group_is_drained() {
    let g = Group::new(77);
    assert_eq!(g.pending(), 0);
    assert_eq!(g.handle_count(), 1);
    assert_eq!(g.as_raw(), 77);
    assert_eq!(g.wait_step(0, u64::MAX), WaitStep::Completed);
}

#[test]
fn balanced_enters_and_leaves_drain() {
    let mut g = Group::new(1);
    let a = g.enter();
    let b = g.enter();
    let c = g.enter();
    assert_eq!(g.pending(), 3);
    assert!(a.leave(&mut g).is_empty());
    assert!(b.leave(&mut g).is_empty());
    assert!(c.leave(&mut g).is_empty());
    assert_eq!(g.pending(), 0);
    // A wait without a timeout now reports completion at once.
    assert_eq!(g.wait_step(0, u64::MAX), WaitStep::Completed);
}

#[test]
fn zero_timeout_with_pending_work_times_out() {
    let mut g = Group::new(1);
    let _guard = g.enter();
    let now: u64 = 1_000;
    let deadline = wait_deadline(Some(Interval { secs: 0, nanos: 0 }), now).unwrap();
    assert_eq!(deadline, now);
    let step = g.wait_step(now, deadline);
    assert_eq!(step, WaitStep::TimedOut);
    assert_ne!(step, WaitStep::Completed);
    // A timed-out wait has no side effect on the count.
    assert_eq!(g.pending(), 1);
}

#[test]
fn untimed_wait_never_times_out() {
    let mut g = Group::new(1);
    let _guard = g.enter();
    let forever = wait_deadline(None, u64::MAX).unwrap();
    assert_eq!(forever, DEADLINE_FOREVER);
    // Even at the clock's own ceiling, the sentinel is no deadline:
    // the wait keeps parking instead of reporting a timeout.
    assert_eq!(g.wait_step(u64::MAX, forever), WaitStep::Park);
}

#[test]
fn guard_is_bound_to_its_issuing_group() {
    let mut g = Group::new(21);
    let guard = g.enter();
    assert_eq!(guard.issued_from(), g.as_raw());
    assert!(guard.leave(&mut g).is_empty());
}

#[test]
fn notify_on_drained_group_fires_immediately_once() {
    let mut g = Group::new(1);
    let fired = g.notify(7);
    assert_eq!(fired, vec![7]);
    // The id was never stored, so a later wave does not fire it again.
    let guard = g.enter();
    assert!(guard.leave(&mut g).is_empty());
}

#[test]
fn notify_fires_once_at_the_first_drain() {
    let mut g = Group::new(1);
    let a = g.enter();
    assert!(g.notify(42).is_empty());
    let b = g.enter();
    // Two to one: nothing fires yet.
    assert!(b.leave(&mut g).is_empty());
    // One to zero: the registration fires, exactly here.
    assert_eq!(a.leave(&mut g), vec![42]);
    // A new wave drains without firing it again.
    let c = g.enter();
    assert!(c.leave(&mut g).is_empty());
}

#[test]
fn firing_again_takes_a_new_registration() {
    let mut g = Group::new(1);
    let a = g.enter();
    assert!(g.notify(8).is_empty());
    assert_eq!(a.leave(&mut g), vec![8]);
    // Registered anew, the same id fires for the next wave's drain.
    let b = g.enter();
    assert!(g.notify(8).is_empty());
    assert_eq!(b.leave(&mut g), vec![8]);
}

#[test]
fn notifications_fire_in_registration_order() {
    let mut g = Group::new(1);
    let guard = g.enter();
    assert!(g.notify(3).is_empty());
    assert!(g.notify(1).is_empty());
    assert!(g.notify(2).is_empty());
    assert_eq!(guard.leave(&mut g), vec![3, 1, 2]);
}

#[test]
fn guard_release_decrements_exactly_once() {
    let mut g = Group::new(1);
    let mut guard = g.enter();
    assert!(!guard.consumed());
    assert!(guard.release(&mut g).is_empty());
    assert!(guard.consumed());
    assert_eq!(g.pending(), 0);
    // The second release path finds the flag set and does nothing.
    assert!(guard.release(&mut g).is_empty());
    assert_eq!(g.pending(), 0);
}

#[test]
fn explicit_leave_then_scope_release_decrements_once() {
    let mut g = Group::new(1);
    let other = g.enter();
    let mut guard = g.enter();
    assert_eq!(g.pending(), 2);
    assert!(guard.release(&mut g).is_empty());
    assert_eq!(g.pending(), 1);
    // Consuming the already-released guard performs no second leave.
    assert!(guard.leave(&mut g).is_empty());
    assert_eq!(g.pending(), 1);
    assert!(other.leave(&mut g).is_empty());
    assert_eq!(g.pending(), 0);
}

#[test]
fn two_guards_then_wait_completes_before_the_deadline() {
    let mut g = Group::new(1);
    let a = g.enter();
    let b = g.enter();
    let now: u64 = 0;
    let deadline = wait_deadline(Some(Interval { secs: 5, nanos: 0 }), now).unwrap();
    assert_eq!(g.wait_step(now, deadline), WaitStep::Park);
    assert!(a.leave(&mut g).is_empty());
    assert_eq!(g.wait_step(1, deadline), WaitStep::Park);
    assert!(b.leave(&mut g).is_empty());
    // Well before the five-second deadline the wait reports success.
    assert_eq!(g.wait_step(2, deadline), WaitStep::Completed);
}

#[test]
fn notify_then_enter_and_drop_fires_exactly_once() {
    let mut g = Group::new(1);
    // Registered at count zero: handed to the executor at once.
    assert_eq!(g.notify(5), vec![5]);
    // An enter whose guard is dropped with no work fires nothing more.
    let mut guard = g.enter();
    assert!(guard.release(&mut g).is_empty());
    assert_eq!(g.pending(), 0);
}

#[test]
fn outstanding_guard_times_out_and_keeps_waiting_state() {
    let mut g = Group::new(1);
    let _guard = g.enter();
    let now: u64 = 0;
    let deadline = wait_deadline(Some(Interval { secs: 0, nanos: 50_000_000 }), now).unwrap();
    assert_eq!(deadline, 50_000_000);
    // Before the deadline the wait keeps blocking, not reporting success.
    assert_eq!(g.wait_step(25_000_000, deadline), WaitStep::Park);
    // At the deadline it reports the timeout, not success.
    assert_eq!(g.wait_step(50_000_000, deadline), WaitStep::TimedOut);
    assert_eq!(g.pending(), 1);
}

#[test]
fn overflowing_wait_timeout_reports_before_parking() {
    let g = Group::new(1);
    let iv = Interval { secs: u64::MAX, nanos: 0 };
    // The conversion fails before any parking; the group is untouched.
    assert_eq!(wait_deadline(Some(iv), 0), Err(WaitError::TimeOverflow));
    assert_eq!(g.pending(), 0);
}

#[test]
fn finalizer_fires_once_at_the_last_release() {
    let mut g = Group::new(1);
    g.set_finalizer(99);
    g.retain();
    assert_eq!(g.handle_count(), 2);
    assert_eq!(g.release_handle(), None);
    assert_eq!(g.release_handle(), Some(99));
    assert_eq!(g.handle_count(), 0);
}

#[test]
fn finalizer_registration_is_replaced_by_a_later_one() {
    let mut g = Group::new(1);
    g.set_finalizer(1);
    g.set_finalizer(2);
    assert_eq!(g.release_handle(), Some(2));
}

#[test]
fn teardown_without_finalizer_hands_out_nothing() {
    let mut g = Group::new(1);
    assert_eq!(g.release_handle(), None);
}
