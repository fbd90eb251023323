//! Sleeping.
use vstd::prelude::*;

verus! {

/// The number of nanoseconds in a second.
pub const NANOS_PER_SECOND: u64 = 1_000_000_000;

/// The number of nanoseconds a sleep of `sec` seconds lasts.
pub fn sleep_nanos(sec: u64) -> (r: u64)
    requires
        sec * NANOS_PER_SECOND <= u64::MAX,
    ensures
        r == sec * NANOS_PER_SECOND,
{
    sec * NANOS_PER_SECOND
}

} // verus!
