//! Call-latency measurement.
//!
//! The gateway measures how long the upstream call takes, purely for
//! diagnostic logging; the measurement has no functional effect. Readings
//! come from a monotonic clock as milliseconds.

use vstd::prelude::*;

verus! {

/// The elapsed time between two monotonic clock readings, in milliseconds.
/// As with monotonic durations, a reading taken later never subtracts to
/// less than zero: the difference saturates at zero.
pub fn time_diff(start_time: u64, end_time: u64) -> (elapsed: u64)
    ensures
        elapsed == if end_time >= start_time {
            end_time - start_time
        } else {
            0
        },
{
    if end_time >= start_time {
        end_time - start_time
    } else {
        0
    }
}

} // verus!
