//! Conversion of a relative duration into an absolute deadline.
//!
//! A blocking wait is bounded by an absolute point in time. The caller
//! hands over a relative duration; the total length of that duration in
//! nanoseconds must fit the signed 64-bit range, and any overflow is
//! reported as a distinct error before any blocking takes place. A wait
//! without a timeout uses the sentinel [`DEADLINE_FOREVER`] and bypasses
//! the conversion entirely.

use vstd::prelude::*;

verus! {

/// Why a timed wait did not report completion.
#[derive(Clone, Copy, Debug, PartialEq, Eq, Structural)]
pub enum WaitError {
    /// The deadline passed before the pending count reached zero.
    Timeout,
    /// The requested timeout does not fit the signed 64-bit nanosecond
    /// range, so no deadline could be formed; no blocking occurred.
    TimeOverflow,
}

/// A relative duration: whole seconds plus sub-second nanoseconds.
#[derive(Clone, Copy, Debug, PartialEq, Eq, Structural)]
pub struct Interval {
    pub secs: u64,
    pub nanos: u32,
}

/// The sentinel deadline of a wait without a timeout: never reached.
pub const DEADLINE_FOREVER: u64 = u64::MAX;

pub const NANOS_PER_SEC: u64 = 1_000_000_000;

/// The total length of an interval in nanoseconds, as a mathematical
/// integer.
pub open spec fn total_nanos(iv: Interval) -> int {
    iv.secs * (NANOS_PER_SEC as int) + iv.nanos
}

/// The absolute deadline reached by moving `total` nanoseconds past
/// `now`, saturating at [`DEADLINE_FOREVER`].
pub open spec fn deadline_value(now: u64, total: int) -> int {
    if now + total >= u64::MAX {
        u64::MAX as int
    } else {
        now + total
    }
}

/// Checked conversion of an interval to a signed nanosecond delta.
/// Succeeds, with the exact total, if and only if the total fits an
/// `i64`; any overflow yields [`WaitError::TimeOverflow`].
pub fn delta_nanos(iv: Interval) -> (r: Result<i64, WaitError>)
    ensures
        r is Ok <==> total_nanos(iv) <= i64::MAX,
        r is Ok ==> r->Ok_0 == total_nanos(iv) && r->Ok_0 >= 0,
        r is Err ==> r == Err::<i64, WaitError>(WaitError::TimeOverflow),
{
    let max_whole_secs: u64 = i64::MAX as u64 / NANOS_PER_SEC;
    if iv.secs > max_whole_secs {
        return Err(WaitError::TimeOverflow);
    }
    let base: i64 = (iv.secs as i64) * (NANOS_PER_SEC as i64);
    let rest: i64 = iv.nanos as i64;
    if rest > i64::MAX - base {
        return Err(WaitError::TimeOverflow);
    }
    Ok(base + rest)
}

/// The absolute deadline `now + delta`, saturating at
/// [`DEADLINE_FOREVER`].
pub fn deadline_after(now: u64, delta: i64) -> (d: u64)
    requires
        delta >= 0,
    ensures
        d == deadline_value(now, delta as int),
{
    let delta_u: u64 = delta as u64;
    if now >= u64::MAX - delta_u {
        u64::MAX
    } else {
        now + delta_u
    }
}

/// The absolute deadline of a wait requested at `now`: the sentinel
/// when no timeout was given, otherwise `now` plus the interval.
/// An interval whose nanosecond total overflows the signed 64-bit range
/// yields [`WaitError::TimeOverflow`], never a wrapped or truncated
/// deadline, and the caller must not block in that case.
pub fn wait_deadline(timeout: Option<Interval>, now: u64) -> (r: Result<u64, WaitError>)
    ensures
        timeout is None ==> r == Ok::<u64, WaitError>(DEADLINE_FOREVER),
        timeout is Some ==> {
            &&& r is Ok <==> total_nanos(timeout->Some_0) <= i64::MAX
            &&& r is Ok ==> r->Ok_0 == deadline_value(now, total_nanos(timeout->Some_0))
            &&& r is Err ==> r == Err::<u64, WaitError>(WaitError::TimeOverflow)
        },
{
    match timeout {
        None => Ok(DEADLINE_FOREVER),
        Some(iv) => {
            match delta_nanos(iv) {
                Ok(delta) => Ok(deadline_after(now, delta)),
                Err(e) => Err(e),
            }
        }
    }
}

} // verus!
