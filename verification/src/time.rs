//! Plain-integer durations. The engine measures everything in
//! nanoseconds; callers hand in counts of some unit and convert here.

use vstd::prelude::*;

verus! {

/// The unit a caller's duration count is given in.
#[derive(Clone, Copy, PartialEq, Eq, Structural, Debug)]
pub enum TimeUnit {
    Micros,
    Millis,
    Nanos,
    Secs,
}

/// Nanoseconds per unit.
pub open spec fn spec_unit_nanos(unit: TimeUnit) -> int {
    match unit {
        TimeUnit::Micros => 1000,
        TimeUnit::Millis => 1000000,
        TimeUnit::Nanos => 1,
        TimeUnit::Secs => 1000000000,
    }
}

/// Converts a duration given as a count of some unit into nanoseconds.
pub fn c_duration_to_rust_duration(unit: TimeUnit, count: u64) -> (r: u128)
    ensures
        r == count * spec_unit_nanos(unit),
{
    match unit {
        TimeUnit::Micros => (count as u128) * 1000,
        TimeUnit::Millis => (count as u128) * 1000000,
        TimeUnit::Nanos => count as u128,
        TimeUnit::Secs => (count as u128) * 1000000000,
    }
}

} // verus!
