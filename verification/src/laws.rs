//! Laws of the completion group over whole histories of operations.
//!
//! The contracts in [`crate::group`] tie every executable method to one
//! [`step`] of the specification-level state machine. The proofs here
//! lift those single steps to arbitrary interleavings: [`run`] folds a
//! whole sequence of operations — however many threads produced it, the
//! group's host serializes them into one history — and the lemmas state
//! what every such history guarantees: the count is exactly the balance
//! of enters over leaves, and each registered notification fires at
//! most once, exactly once when the group drains after registration.

use vstd::prelude::*;

use crate::group::{op_ok, step, GroupOp, GroupView};

verus! {

/// The state after a whole history of operations, paired with every
/// notification id handed to the executor along the way, in order.
pub open spec fn run(v: GroupView, ops: Seq<GroupOp>) -> (GroupView, Seq<u64>)
    decreases ops.len(),
{
    if ops.len() == 0 {
        (v, Seq::empty())
    } else {
        let head = step(v, ops.first());
        let rest = run(head.0, ops.drop_first());
        (rest.0, head.1 + rest.1)
    }
}

/// Whether every operation of `ops` is legal in the state it runs in.
pub open spec fn ops_ok(v: GroupView, ops: Seq<GroupOp>) -> bool
    decreases ops.len(),
{
    ops.len() == 0 || (op_ok(v, ops.first()) && ops_ok(step(v, ops.first()).0, ops.drop_first()))
}

/// How many enters a history holds.
pub open spec fn enters(ops: Seq<GroupOp>) -> nat
    decreases ops.len(),
{
    if ops.len() == 0 {
        0
    } else {
        (if ops.first() is Enter { 1nat } else { 0nat }) + enters(ops.drop_first())
    }
}

/// How many leaves a history holds.
pub open spec fn leaves(ops: Seq<GroupOp>) -> nat
    decreases ops.len(),
{
    if ops.len() == 0 {
        0
    } else {
        (if ops.first() is Leave { 1nat } else { 0nat }) + leaves(ops.drop_first())
    }
}

/// How many times a history registers the notification id `id`.
pub open spec fn registrations(ops: Seq<GroupOp>, id: u64) -> nat
    decreases ops.len(),
{
    if ops.len() == 0 {
        0
    } else {
        (if ops.first() == GroupOp::Notify(id) { 1nat } else { 0nat })
            + registrations(ops.drop_first(), id)
    }
}

/// How many times `id` occurs in a sequence of notification ids.
pub open spec fn occurrences(s: Seq<u64>, id: u64) -> nat
    decreases s.len(),
{
    if s.len() == 0 {
        0
    } else {
        (if s.first() == id { 1nat } else { 0nat }) + occurrences(s.drop_first(), id)
    }
}

/// Occurrences distribute over concatenation.
pub proof fn lemma_occurrences_add(a: Seq<u64>, b: Seq<u64>, id: u64)
    ensures
        occurrences(a + b, id) == occurrences(a, id) + occurrences(b, id),
    decreases a.len(),
{
    if a.len() == 0 {
        assert(a + b =~= b);
    } else {
        assert((a + b).first() == a.first());
        assert((a + b).drop_first() =~= a.drop_first() + b);
        lemma_occurrences_add(a.drop_first(), b, id);
    }
}

/// Occurrences after appending one id.
pub proof fn lemma_occurrences_push(s: Seq<u64>, x: u64, id: u64)
    ensures
        occurrences(s.push(x), id) == occurrences(s, id) + (if x == id { 1nat } else { 0nat }),
{
    assert(s.push(x) =~= s + seq![x]);
    lemma_occurrences_add(s, seq![x], id);
    assert(seq![x].drop_first() =~= Seq::<u64>::empty());
    assert(occurrences(Seq::<u64>::empty(), id) == 0);
    assert(occurrences(seq![x], id) == (if x == id { 1nat } else { 0nat }));
}

/// Law: over any legal history, the pending count moves by exactly the
/// balance of enters over leaves. In particular nothing but enter and
/// leave touches it, so the count every wait and notification observes
/// is the enter/leave balance and nothing else.
pub proof fn lemma_count_is_balance(v: GroupView, ops: Seq<GroupOp>)
    requires
        ops_ok(v, ops),
    ensures
        run(v, ops).0.count == v.count + enters(ops) - leaves(ops),
    decreases ops.len(),
{
    if ops.len() != 0 {
        lemma_count_is_balance(step(v, ops.first()).0, ops.drop_first());
    }
}

/// Law: a balanced history — every enter matched by a leave, in any
/// interleaving legal step by step — drains the group back to a count
/// of zero, where a wait without a timeout reports completion at once.
pub proof fn lemma_balanced_history_drains(v: GroupView, ops: Seq<GroupOp>)
    requires
        ops_ok(v, ops),
        v.count == 0,
        enters(ops) == leaves(ops),
    ensures
        run(v, ops).0.count == 0,
{
    lemma_count_is_balance(v, ops);
}

/// Law: notification ids are conserved. Over any history, the times an
/// id was fired plus the times it is still registered at the end equal
/// the times it was registered at the start plus the times the history
/// registered it. No operation duplicates a registration and none
/// invents a firing.
pub proof fn lemma_notification_conservation(v: GroupView, ops: Seq<GroupOp>, id: u64)
    ensures
        occurrences(run(v, ops).1, id) + occurrences(run(v, ops).0.notifications, id)
            == occurrences(v.notifications, id) + registrations(ops, id),
    decreases ops.len(),
{
    assert(occurrences(Seq::<u64>::empty(), id) == 0);
    if ops.len() != 0 {
        let head = step(v, ops.first());
        let rest = run(head.0, ops.drop_first());
        lemma_notification_conservation(head.0, ops.drop_first(), id);
        lemma_occurrences_add(head.1, rest.1, id);
        match ops.first() {
            GroupOp::Enter => {}
            GroupOp::Leave => {}
            GroupOp::Notify(other) => {
                if v.count == 0 {
                    assert(seq![other].drop_first() =~= Seq::<u64>::empty());
                    assert(occurrences(seq![other], id) == (if other == id {
                        1nat
                    } else {
                        0nat
                    }));
                } else {
                    lemma_occurrences_push(v.notifications, other, id);
                }
            }
        }
    }
}

/// Law: a notification neither pending nor registered never fires. In
/// particular one that already fired — it is removed from the pending
/// queue the moment it fires — does not fire again on the one-to-zero
/// transitions of any later wave, unless registered anew.
pub proof fn lemma_notify_never_refires(v: GroupView, ops: Seq<GroupOp>, id: u64)
    requires
        occurrences(v.notifications, id) == 0,
        registrations(ops, id) == 0,
    ensures
        occurrences(run(v, ops).1, id) == 0,
{
    lemma_notification_conservation(v, ops, id);
}

/// Law: a notification fires at most once per registration: with the
/// id pending or registered at most once in total, no history fires it
/// twice.
pub proof fn lemma_notify_fires_at_most_once(v: GroupView, ops: Seq<GroupOp>, id: u64)
    requires
        occurrences(v.notifications, id) + registrations(ops, id) <= 1,
    ensures
        occurrences(run(v, ops).1, id) <= 1,
{
    lemma_notification_conservation(v, ops, id);
}

/// Whether a history contains a drain: a leave that takes the count
/// from one to zero.
pub open spec fn drains(v: GroupView, ops: Seq<GroupOp>) -> bool
    decreases ops.len(),
{
    ops.len() > 0 && ((ops.first() is Leave && v.count == 1) || drains(
        step(v, ops.first()).0,
        ops.drop_first(),
    ))
}

/// Law: a pending notification fires exactly once on any history that
/// drains the group and does not register its id again — at the first
/// one-to-zero transition, which clears it from the queue so that no
/// later transition can fire it a second time.
pub proof fn lemma_pending_notification_fires_on_drain(v: GroupView, ops: Seq<GroupOp>, id: u64)
    requires
        occurrences(v.notifications, id) == 1,
        registrations(ops, id) == 0,
        drains(v, ops),
    ensures
        occurrences(run(v, ops).1, id) == 1,
        occurrences(run(v, ops).0.notifications, id) == 0,
    decreases ops.len(),
{
    let head = step(v, ops.first());
    let rest = run(head.0, ops.drop_first());
    lemma_occurrences_add(head.1, rest.1, id);
    assert(occurrences(Seq::<u64>::empty(), id) == 0);
    if ops.first() is Leave && v.count == 1 {
        // The drain itself: everything pending fires, `id` among it,
        // and the queue is left empty, so nothing fires it again.
        lemma_notify_never_refires(head.0, ops.drop_first(), id);
        lemma_notification_conservation(head.0, ops.drop_first(), id);
    } else {
        // The step leaves `id` pending exactly once and the rest of
        // the history still drains.
        match ops.first() {
            GroupOp::Enter => {}
            GroupOp::Leave => {}
            GroupOp::Notify(other) => {
                if v.count == 0 {
                    assert(seq![other].drop_first() =~= Seq::<u64>::empty());
                    assert(occurrences(seq![other], id) == 0);
                } else {
                    lemma_occurrences_push(v.notifications, other, id);
                }
            }
        }
        lemma_pending_notification_fires_on_drain(head.0, ops.drop_first(), id);
    }
}

/// Law: a notification registered exactly once fires exactly once on
/// any history that leaves it unregistered at the end — be it by the
/// immediate firing of a registration at count zero, or by the first
/// one-to-zero transition after a registration while work was pending.
pub proof fn lemma_notify_fires_exactly_once(v: GroupView, ops: Seq<GroupOp>, id: u64)
    requires
        occurrences(v.notifications, id) == 0,
        registrations(ops, id) == 1,
        occurrences(run(v, ops).0.notifications, id) == 0,
    ensures
        occurrences(run(v, ops).1, id) == 1,
{
    lemma_notification_conservation(v, ops, id);
}

} // verus!
