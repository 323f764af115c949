//! Timing decisions of the background fetch loop: aligning fetches to full
//! minutes and detecting drift of the fetch timer.

use vstd::prelude::*;

use crate::calendar::tmod;

verus! {

/// Drift beyond which the fetch timer is re-aligned, in seconds.
pub const DRIFT_THRESHOLD_SECS: i64 = 5;

/// Every this many fetch iterations the timer's drift is checked.
pub const ALIGNMENT_CHECK_ITERATIONS: u64 = 60;

/// Seconds from the Unix time `timestamp_secs` to the next full minute
/// (60 when it is already on a full minute).
pub fn seconds_until_next_minute(timestamp_secs: i64) -> (r: i64)
    ensures
        r == 60 - tmod(timestamp_secs as int, 60),
        0 < r < 120,
{
    60 - timestamp_secs % 60
}

/// How long to sleep so that the next fetch starts on a full minute: the
/// seconds to the next full minute when that is strictly between 0 and 60,
/// otherwise no wait.
pub fn minute_alignment_wait(timestamp_secs: i64) -> (r: Option<u64>)
    ensures
        ({
            let s = 60 - tmod(timestamp_secs as int, 60);
            &&& (0 < s < 60) ==> r == Some(s as u64)
            &&& !(0 < s < 60) ==> r is None
        }),
{
    let seconds = seconds_until_next_minute(timestamp_secs);
    if seconds > 0 && seconds < 60 {
        Some(seconds as u64)
    } else {
        None
    }
}

/// Distance in seconds from `timestamp_secs` to the nearest full minute,
/// as the fetch loop measures it: the second within the minute up to 30,
/// and 60 minus it above.
pub fn timer_drift_secs(timestamp_secs: i64) -> (r: i64)
    ensures
        ({
            let s = tmod(timestamp_secs as int, 60);
            r == if s <= 30 {
                s
            } else {
                60 - s
            }
        }),
        r <= 30,
{
    let seconds_into_minute = timestamp_secs % 60;
    if seconds_into_minute <= 30 {
        seconds_into_minute
    } else {
        60 - seconds_into_minute
    }
}

/// Whether the fetch loop re-aligns its timer after iteration
/// `iteration_count` at Unix time `timestamp_secs`: on every
/// `ALIGNMENT_CHECK_ITERATIONS`-th iteration, when the drift exceeds
/// `DRIFT_THRESHOLD_SECS`.
pub fn needs_realignment(iteration_count: u64, timestamp_secs: i64) -> (r: bool)
    ensures
        ({
            let s = tmod(timestamp_secs as int, 60);
            let drift = if s <= 30 {
                s
            } else {
                60 - s
            };
            r == (iteration_count % 60 == 0 && drift > 5)
        }),
{
    iteration_count % ALIGNMENT_CHECK_ITERATIONS == 0 && timer_drift_secs(timestamp_secs)
        > DRIFT_THRESHOLD_SECS
}

} // verus!
