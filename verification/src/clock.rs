//! Time as whole nanoseconds: lengths of time, and readings of one monotonic
//! clock.

use vstd::prelude::*;

verus! {

/// Nanoseconds.
pub type Nanos = u128;

/// One millisecond.
pub const MILLISECOND: u128 = 1_000_000;

/// One second.
pub const SECOND: u128 = 1_000_000_000;

/// The time from `since` to `now`, and nothing where `since` lies ahead.
pub open spec fn elapsed(now: Nanos, since: Nanos) -> int {
    if now > since {
        now - since
    } else {
        0
    }
}

/// The time from `since` to `now`, and nothing where `since` lies ahead.
pub fn time_between(now: Nanos, since: Nanos) -> (r: Nanos)
    ensures
        r == elapsed(now, since),
{
    if now > since {
        now - since
    } else {
        0
    }
}

/// A number of milliseconds as a length of time.
pub fn from_millis(ms: u32) -> (r: Nanos)
    ensures
        r == ms * 1_000_000,
{
    ms as u128 * MILLISECOND
}

/// Time goes forward: from an earlier reading to a later one it is their difference,
/// and from a later one to an earlier one nothing.
pub proof fn law_time_goes_forward(now: Nanos, since: Nanos)
    ensures
        now >= since ==> elapsed(now, since) == now - since,
        now < since ==> elapsed(now, since) == 0,
{
}

} // verus!
