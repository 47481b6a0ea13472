//! Redraw-rate throttling: a pure gate deciding whether enough time has
//! passed since the last redraw.

use vstd::prelude::*;

verus! {

/// A redraw at time `now` may proceed when no minimum interval is
/// configured, or when at least that interval has passed since the last
/// redraw that was let through. Times are nanoseconds on one monotone
/// clock; the interval is in nanoseconds too.
pub open spec fn spec_throttle_allows(now: int, last: int, max_rate: Option<u128>) -> bool {
    match max_rate {
        Option::None => true,
        Option::Some(d) => now >= last + d,
    }
}

/// Decides whether a redraw may proceed.
pub fn throttle_allows(now_ns: u64, last_ns: u64, max_rate_ns: Option<u128>) -> (r: bool)
    ensures
        r == spec_throttle_allows(now_ns as int, last_ns as int, max_rate_ns),
{
    match max_rate_ns {
        Option::None => true,
        Option::Some(d) => now_ns >= last_ns && ((now_ns - last_ns) as u128) >= d,
    }
}

/// Throttling admits at most one redraw per interval: once a redraw has
/// gone through at time `t1` (so `t1` became the last-redraw time), a
/// second attempt less than the interval `d` later is refused.
pub proof fn lemma_throttle_min_interval(t1: int, t2: int, d: u128)
    requires
        t2 < t1 + d,
    ensures
        !spec_throttle_allows(t2, t1, Option::Some(d)),
{
}

/// With no interval configured, every attempt goes through.
pub proof fn lemma_throttle_unset(now: int, last: int)
    ensures
        spec_throttle_allows(now, last, Option::None),
{
}

} // verus!
