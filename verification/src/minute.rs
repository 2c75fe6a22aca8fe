//! Clock readings, taken down to the minute.
//!
//! A reading is a count of seconds since the epoch. Only its whole minutes
//! count: the seconds past the last minute boundary are dropped, for
//! readings before the epoch too, so a reading never moves forward.

use vstd::prelude::*;

verus! {

/// Seconds in a minute.
pub const SECONDS_PER_MINUTE: i64 = 60;

/// The whole minutes between the epoch and a reading of `seconds`, rounded
/// towards the past.
pub open spec fn minute_of(seconds: int) -> int {
    seconds / (SECONDS_PER_MINUTE as int)
}

/// The last minute boundary at or before a reading, in seconds.
pub open spec fn round_down_to_minute(seconds: int) -> int {
    minute_of(seconds) * SECONDS_PER_MINUTE
}

/// Counts the whole minutes of a reading.
pub fn whole_minutes(seconds: i64) -> (minute: i64)
    ensures
        minute == minute_of(seconds as int),
{
    let quotient: i64 = seconds / SECONDS_PER_MINUTE;
    if seconds % SECONDS_PER_MINUTE < 0 {
        quotient - 1
    } else {
        quotient
    }
}

/// Rounding down drops less than a minute and leaves a multiple of a minute.
pub proof fn lemma_round_down_to_minute(seconds: int)
    ensures
        round_down_to_minute(seconds) <= seconds < round_down_to_minute(seconds)
            + SECONDS_PER_MINUTE,
        round_down_to_minute(seconds) % (SECONDS_PER_MINUTE as int) == 0,
        round_down_to_minute(seconds) == seconds - seconds % (SECONDS_PER_MINUTE as int),
{
}

} // verus!
