//! Splitting a millisecond timestamp into the parts a calendar date-time is
//! built from.
use vstd::prelude::*;

verus! {

/// Splits a millisecond timestamp into whole seconds and the milliseconds left
/// over; the latter are handed on as a count of nanoseconds.
pub fn split_millis(timestamp: u64) -> (r: (i64, u32))
    ensures
        r.0 as int == timestamp as int / 1000,
        r.1 as int == timestamp as int % 1000,
{
    ((timestamp / 1000) as i64, (timestamp % 1000) as u32)
}

} // verus!
