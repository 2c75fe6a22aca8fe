//! The triangular wave that the price follows.
//!
//! The wave repeats every [`FULL_PERIOD`] seconds. During the first half of a
//! cycle it climbs from zero towards [`MAX_PRICE`], during the second half it
//! descends from [`MAX_PRICE`] back towards zero. Every value is a whole
//! number: both halves divide with truncation.

use vstd::prelude::*;

verus! {

/// Seconds that the wave spends on each of its two halves.
pub const HALF_PERIOD: i64 = 1800;

/// Seconds after which the wave repeats.
pub const FULL_PERIOD: i64 = 3600;

/// The value at the peak of the wave.
pub const MAX_PRICE: i64 = 5;

/// Seconds that the climbing half spends on each value before it reaches the
/// next one.
pub const STEP: i64 = 360;

/// Seconds into the current cycle: the non-negative remainder of `elapsed`
/// by the full period, also where `elapsed` is negative.
pub open spec fn wave_phase(elapsed: int) -> int {
    elapsed % (FULL_PERIOD as int)
}

/// The value of the wave `phase` seconds into a cycle.
pub open spec fn price_at_phase(phase: int) -> int {
    if phase < HALF_PERIOD {
        (phase * MAX_PRICE) / (HALF_PERIOD as int)
    } else {
        MAX_PRICE - ((phase - HALF_PERIOD) * MAX_PRICE) / (HALF_PERIOD as int)
    }
}

/// Whether the climbing half reaches a new value exactly at `phase`.
pub open spec fn on_step(phase: int) -> bool {
    phase % (STEP as int) == 0
}

/// The value of the wave `elapsed` seconds after its start.
pub open spec fn wave_price(elapsed: int) -> int {
    price_at_phase(wave_phase(elapsed))
}

/// Reduces an elapsed time to its position within the current cycle.
///
/// An `i128` holds the distance between any two readings of 64 bits.
pub fn phase(elapsed: i128) -> (p: i64)
    ensures
        p == wave_phase(elapsed as int),
        0 <= p < FULL_PERIOD,
{
    let remainder: i64 = (elapsed % (FULL_PERIOD as i128)) as i64;
    if remainder < 0 {
        remainder + FULL_PERIOD
    } else {
        remainder
    }
}

/// Evaluates the wave `elapsed` seconds after its start.
pub fn price(elapsed: i128) -> (value: i64)
    ensures
        value == wave_price(elapsed as int),
        0 <= value <= MAX_PRICE,
{
    let normalized_time: i64 = phase(elapsed);
    if normalized_time < HALF_PERIOD {
        normalized_time * MAX_PRICE / HALF_PERIOD
    } else {
        MAX_PRICE - (normalized_time - HALF_PERIOD) * MAX_PRICE / HALF_PERIOD
    }
}

/// The wave never leaves the band from zero to [`MAX_PRICE`], whatever the
/// elapsed time.
pub proof fn lemma_price_in_range(elapsed: int)
    ensures
        0 <= wave_price(elapsed) <= MAX_PRICE,
{
}

/// The wave has the same value one full period later.
pub proof fn lemma_price_periodic(elapsed: int)
    ensures
        wave_price(elapsed) == wave_price(elapsed + FULL_PERIOD),
{
}

/// Two elapsed times that differ by a whole number of periods have the same
/// value.
pub proof fn lemma_price_periodic_multiple(elapsed: int, cycles: int)
    ensures
        wave_price(elapsed + cycles * FULL_PERIOD) == wave_price(elapsed),
{
    assert(wave_phase(elapsed + cycles * FULL_PERIOD) == wave_phase(elapsed)) by {
        vstd::arithmetic::div_mod::lemma_mod_multiples_vanish(
            cycles,
            elapsed,
            FULL_PERIOD as int,
        );
    }
}

/// During the climbing half the value never drops as the phase grows.
pub proof fn lemma_rising_is_monotonic(earlier: int, later: int)
    requires
        0 <= earlier <= later < HALF_PERIOD,
    ensures
        price_at_phase(earlier) <= price_at_phase(later),
{
}

/// During the descending half the value never grows as the phase grows.
pub proof fn lemma_falling_is_monotonic(earlier: int, later: int)
    requires
        HALF_PERIOD <= earlier <= later < FULL_PERIOD,
    ensures
        price_at_phase(earlier) >= price_at_phase(later),
{
}

/// How the two halves mirror each other. The climbing half rounds its value
/// down and the descending half rounds its value up. So `phase` seconds
/// before the end of a cycle the wave has its value of `phase` seconds after
/// the start where that value has just been reached, and stands one above
/// it everywhere else.
pub proof fn lemma_mirror_gap(phase: int)
    requires
        0 < phase < HALF_PERIOD,
    ensures
        on_step(phase) ==> price_at_phase(FULL_PERIOD - phase) == price_at_phase(phase),
        !on_step(phase) ==> price_at_phase(FULL_PERIOD - phase) == price_at_phase(phase) + 1,
{
}

/// At the instants of the climbing half at which a new value is reached, the
/// wave has the same value at the mirrored instant of the descending half,
/// which is also its value the same number of seconds before the start.
pub proof fn lemma_mirror_symmetry(elapsed: int)
    requires
        0 < wave_phase(elapsed) < HALF_PERIOD,
        on_step(wave_phase(elapsed)),
    ensures
        wave_price(elapsed) == price_at_phase(FULL_PERIOD - wave_phase(elapsed)),
        wave_price(elapsed) == wave_price(-elapsed),
{
    lemma_mirror_gap(wave_phase(elapsed));
}

} // verus!
