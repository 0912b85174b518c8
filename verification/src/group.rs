//! The completion-group counting and notification state machine.
//!
//! A [`Group`] tracks a pending count of outstanding work units, a queue
//! of registered one-shot notification ids, an outstanding-handle count
//! and an optional finalizer id. Every operation is a small, total
//! transition; the contracts tie each executable method to the
//! specification-level [`step`] function, so that whole histories of
//! operations can be reasoned about in [`crate::laws`].
//!
//! The ids stored here stand for the closures the host code holds: when
//! an operation returns a vector of fired ids, the host submits the
//! matching closures to its executor. The host serializes access to a
//! shared group (its lock is what makes racing leaves at the zero
//! boundary serialize), performs the blocking that [`Group::wait_step`]
//! decides on, and aborts where a caller breaks the enter/leave balance
//! that the `requires` clauses state.

use vstd::prelude::*;

use crate::deadline::DEADLINE_FOREVER;

verus! {

/// The mathematical state of a completion group.
#[verifier::ext_equal]
pub ghost struct GroupView {
    /// Outstanding units of work: enters not yet matched by a leave.
    pub count: nat,
    /// Registered, not yet fired notification ids, oldest first.
    pub notifications: Seq<u64>,
    /// Outstanding owning handles (clones and guards of the host code).
    pub handles: nat,
    /// The finalizer id to hand out when the last handle goes away.
    pub finalizer: Option<u64>,
    /// The identity of the underlying shared object.
    pub raw: u64,
}

/// One barrier operation, for stating laws over whole histories.
pub enum GroupOp {
    /// One more unit of pending work.
    Enter,
    /// One unit of pending work finished.
    Leave,
    /// A one-shot notification registered under the given id.
    Notify(u64),
}

/// Whether `op` is legal in state `v`: a leave needs pending work to
/// match (past zero it is a fatal imbalance, not a transition), and an
/// enter needs headroom in the counter.
pub open spec fn op_ok(v: GroupView, op: GroupOp) -> bool {
    match op {
        GroupOp::Enter => v.count < u64::MAX,
        GroupOp::Leave => v.count > 0,
        GroupOp::Notify(_) => true,
    }
}

/// The state after one operation, paired with the notification ids the
/// operation hands to the executor. A leave that takes the count from
/// one to zero fires every registered notification, in registration
/// order; a notification registered at count zero fires at once (still
/// through the executor) and is never stored.
pub open spec fn step(v: GroupView, op: GroupOp) -> (GroupView, Seq<u64>) {
    match op {
        GroupOp::Enter => (
            GroupView { count: (v.count + 1) as nat, ..v },
            Seq::empty(),
        ),
        GroupOp::Leave => {
            if v.count == 1 {
                (GroupView { count: 0, notifications: Seq::empty(), ..v }, v.notifications)
            } else {
                (GroupView { count: (v.count - 1) as nat, ..v }, Seq::empty())
            }
        }
        GroupOp::Notify(id) => {
            if v.count == 0 {
                (v, seq![id])
            } else {
                (GroupView { notifications: v.notifications.push(id), ..v }, Seq::empty())
            }
        }
    }
}

/// What one poll of a blocked wait decides.
#[derive(Clone, Copy, Debug, PartialEq, Eq, Structural)]
pub enum WaitStep {
    /// The pending count is zero: the wait reports success.
    Completed,
    /// Pending work remains and the deadline has passed: the wait
    /// reports a timeout, leaving the count untouched.
    TimedOut,
    /// Pending work remains and the deadline has not passed: the caller
    /// keeps blocking until woken or until the deadline.
    Park,
}

/// A completion group: the shared counter-and-callback object.
pub struct Group {
    count: u64,
    notifications: Vec<u64>,
    handles: u64,
    finalizer: Option<u64>,
    raw: u64,
}

impl View for Group {
    type V = GroupView;

    closed spec fn view(&self) -> GroupView {
        GroupView {
            count: self.count as nat,
            notifications: self.notifications@,
            handles: self.handles as nat,
            finalizer: self.finalizer,
            raw: self.raw,
        }
    }
}

impl Group {
    /// A fresh group over the underlying object named `raw`: no pending
    /// work, no registered notifications, one owning handle, no
    /// finalizer. Allocating the underlying object is the host's step;
    /// it reports allocation failure before this constructor runs.
    pub fn new(raw: u64) -> (g: Group)
        ensures
            g@ == (GroupView {
                count: 0,
                notifications: Seq::empty(),
                handles: 1,
                finalizer: None,
                raw,
            }),
    {
        Group { count: 0, notifications: Vec::new(), handles: 1, finalizer: None, raw }
    }

    /// The pending count as it stands now.
    pub fn pending(&self) -> (n: u64)
        ensures
            n == self@.count,
    {
        self.count
    }

    /// The number of outstanding owning handles.
    pub fn handle_count(&self) -> (n: u64)
        ensures
            n == self@.handles,
    {
        self.handles
    }

    /// The identity of the underlying shared object, for the executor
    /// collaborator.
    pub fn as_raw(&self) -> (r: u64)
        ensures
            r == self@.raw,
    {
        self.raw
    }

    /// Tracks one more unit of pending work and issues the guard that
    /// owes this group — and no other — the matching leave. A count at
    /// the top of the counter's range is a fatal invariant violation,
    /// excluded here rather than wrapped.
    pub fn enter(&mut self) -> (g: GroupGuard)
        requires
            old(self)@.count < u64::MAX,
        ensures
            final(self)@ == step(old(self)@, GroupOp::Enter).0,
            final(self)@.count == old(self)@.count + 1,
            final(self)@.notifications == old(self)@.notifications,
            final(self)@.handles == old(self)@.handles,
            final(self)@.finalizer == old(self)@.finalizer,
            final(self)@.raw == old(self)@.raw,
            !g.is_released(),
            g.origin() == old(self)@.raw,
    {
        self.count = self.count + 1;
        GroupGuard { released: false, group_raw: self.raw }
    }

    /// One unit of pending work finished. A leave past zero would
    /// corrupt every later wait and notification, so it is a fatal
    /// imbalance excluded by `requires`; the host aborts rather than
    /// call this on a drained group. The returned ids are the
    /// notifications to hand to the executor now: all of them on the
    /// one-to-zero transition, none otherwise.
    pub fn leave(&mut self) -> (fired: Vec<u64>)
        requires
            old(self)@.count > 0,
        ensures
            final(self)@ == step(old(self)@, GroupOp::Leave).0,
            fired@ == step(old(self)@, GroupOp::Leave).1,
            final(self)@.count == old(self)@.count - 1,
            old(self)@.count == 1 ==> fired@ == old(self)@.notifications
                && final(self)@.notifications == Seq::<u64>::empty(),
            old(self)@.count != 1 ==> fired@ == Seq::<u64>::empty()
                && final(self)@.notifications == old(self)@.notifications,
            final(self)@.handles == old(self)@.handles,
            final(self)@.finalizer == old(self)@.finalizer,
            final(self)@.raw == old(self)@.raw,
    {
        self.count = self.count - 1;
        let mut fired: Vec<u64> = Vec::new();
        if self.count == 0 {
            core::mem::swap(&mut fired, &mut self.notifications);
        }
        fired
    }

    /// Registers the one-shot notification `id`. On a group already at
    /// zero the id fires at once — returned for immediate submission to
    /// the executor, never run on the caller's own stack — and is not
    /// stored; otherwise it is queued for the next one-to-zero
    /// transition.
    pub fn notify(&mut self, id: u64) -> (fired: Vec<u64>)
        ensures
            final(self)@ == step(old(self)@, GroupOp::Notify(id)).0,
            fired@ == step(old(self)@, GroupOp::Notify(id)).1,
            old(self)@.count == 0 ==> final(self)@ == old(self)@ && fired@ == seq![id],
            old(self)@.count != 0 ==> fired@ == Seq::<u64>::empty()
                && final(self)@.notifications == old(self)@.notifications.push(id)
                && final(self)@.count == old(self)@.count
                && final(self)@.handles == old(self)@.handles
                && final(self)@.finalizer == old(self)@.finalizer
                && final(self)@.raw == old(self)@.raw,
    {
        let mut fired: Vec<u64> = Vec::new();
        if self.count == 0 {
            fired.push(id);
        } else {
            self.notifications.push(id);
        }
        fired
    }

    /// One poll of a blocked wait at time `now` against an absolute
    /// `deadline`. A drained group reports completion even on an
    /// already-passed deadline; a group with pending work times out
    /// exactly when a real deadline has passed, with no effect on the
    /// count. The sentinel [`DEADLINE_FOREVER`] is no real deadline: a
    /// wait without a timeout — or one whose deadline saturated to the
    /// sentinel — never times out, not even at the clock's own
    /// ceiling. The host parks the thread while this decides on
    /// waiting.
    pub fn wait_step(&self, now: u64, deadline: u64) -> (r: WaitStep)
        ensures
            r == WaitStep::Completed <==> self@.count == 0,
            r == WaitStep::TimedOut <==> self@.count > 0 && now >= deadline
                && deadline != DEADLINE_FOREVER,
            r == WaitStep::Park <==> self@.count > 0 && (now < deadline
                || deadline == DEADLINE_FOREVER),
    {
        if self.count == 0 {
            WaitStep::Completed
        } else if deadline != DEADLINE_FOREVER && now >= deadline {
            WaitStep::TimedOut
        } else {
            WaitStep::Park
        }
    }

    /// Registers the finalizer id to hand out when the last handle is
    /// released, replacing any earlier registration. Independent of the
    /// barrier state: the finalizer is about the object's teardown, not
    /// about the count reaching zero.
    pub fn set_finalizer(&mut self, finalizer: u64)
        ensures
            final(self)@ == (GroupView { finalizer: Some(finalizer), ..old(self)@ }),
    {
        self.finalizer = Some(finalizer);
    }

    /// One more owning handle: the host calls this when it clones a
    /// handle to the shared object.
    pub fn retain(&mut self)
        requires
            old(self)@.handles < u64::MAX,
        ensures
            final(self)@ == (GroupView { handles: (old(self)@.handles + 1) as nat, ..old(self)@ }),
    {
        self.handles = self.handles + 1;
    }

    /// One owning handle released. On the last release the registered
    /// finalizer id, if any, is handed out — exactly once, since it is
    /// cleared here — and the host runs the matching callback.
    pub fn release_handle(&mut self) -> (fin: Option<u64>)
        requires
            old(self)@.handles > 0,
        ensures
            final(self)@.handles == old(self)@.handles - 1,
            old(self)@.handles == 1 ==> fin == old(self)@.finalizer
                && final(self)@.finalizer is None,
            old(self)@.handles != 1 ==> fin is None
                && final(self)@.finalizer == old(self)@.finalizer,
            final(self)@.count == old(self)@.count,
            final(self)@.notifications == old(self)@.notifications,
            final(self)@.raw == old(self)@.raw,
    {
        self.handles = self.handles - 1;
        if self.handles == 0 {
            let fin: Option<u64> = self.finalizer;
            self.finalizer = None;
            fin
        } else {
            None
        }
    }

}

/// A scoped token for one unit of pending work: issued only by
/// [`Group::enter`], it owes the originating group — whose identity it
/// carries — exactly one leave, delivered by the first of an explicit
/// [`GroupGuard::leave`] or the host's end-of-scope release through
/// [`GroupGuard::release`], and never a second one.
pub struct GroupGuard {
    released: bool,
    group_raw: u64,
}

impl GroupGuard {
    /// Whether this guard has already delivered its leave.
    pub closed spec fn is_released(&self) -> bool {
        self.released
    }

    /// The identity of the group this guard was issued from: the only
    /// group its leave may go to.
    pub closed spec fn origin(&self) -> u64 {
        self.group_raw
    }

    /// Whether this guard has already delivered its leave.
    pub fn consumed(&self) -> (r: bool)
        ensures
            r == self.is_released(),
    {
        self.released
    }

    /// The identity of the group this guard was issued from.
    pub fn issued_from(&self) -> (r: u64)
        ensures
            r == self.origin(),
    {
        self.group_raw
    }

    /// Delivers this guard's leave — to the group it was issued from,
    /// and no other — unless it was already delivered: the released
    /// flag is checked first, so an explicit leave followed by the
    /// end-of-scope release, or the reverse, decrements exactly once.
    /// The host's drop glue calls this.
    pub fn release(&mut self, group: &mut Group) -> (fired: Vec<u64>)
        requires
            old(group)@.raw == old(self).origin(),
            old(self).is_released() || old(group)@.count > 0,
        ensures
            final(self).is_released(),
            final(self).origin() == old(self).origin(),
            old(self).is_released() ==> final(group)@ == old(group)@
                && fired@ == Seq::<u64>::empty(),
            !old(self).is_released() ==> final(group)@ == step(old(group)@, GroupOp::Leave).0
                && fired@ == step(old(group)@, GroupOp::Leave).1,
    {
        if self.released {
            Vec::new()
        } else {
            self.released = true;
            group.leave()
        }
    }

    /// Consumes the guard and delivers its leave to the group it was
    /// issued from, if not already delivered through an earlier
    /// release. Taking the guard by value makes a second explicit
    /// leave impossible.
    pub fn leave(self, group: &mut Group) -> (fired: Vec<u64>)
        requires
            old(group)@.raw == self.origin(),
            self.is_released() || old(group)@.count > 0,
        ensures
            self.is_released() ==> final(group)@ == old(group)@
                && fired@ == Seq::<u64>::empty(),
            !self.is_released() ==> final(group)@ == step(old(group)@, GroupOp::Leave).0
                && fired@ == step(old(group)@, GroupOp::Leave).1,
    {
        let mut guard = self;
        guard.release(group)
    }
}

} // verus!
