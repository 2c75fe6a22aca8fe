//! The oracle: a start instant and the price that follows from it.

use crate::decimal::{decimal_attos, decimal_from_units, ATTOS_PER_UNIT};
use crate::minute::{minute_of, round_down_to_minute, whole_minutes, SECONDS_PER_MINUTE};
use crate::waveform::{self, lemma_price_periodic, wave_price, FULL_PERIOD, MAX_PRICE};
use scrypto::math::Decimal;
use vstd::prelude::*;

verus! {

/// A price oracle whose wave starts at the minute in which it was created.
///
/// The start is fixed for the life of the oracle. It is kept as a count of
/// whole minutes, so every value of the field is a minute boundary.
pub struct SugarPriceOracle {
    starting_minute: i64,
}

impl SugarPriceOracle {
    /// The start of the wave, in seconds since the epoch.
    pub closed spec fn starting_time(&self) -> int {
        self.starting_minute * SECONDS_PER_MINUTE
    }

    /// Seconds between the start of the wave and a reading of `now`, both
    /// taken down to the minute.
    pub open spec fn elapsed_at(&self, now: int) -> int {
        round_down_to_minute(now) - self.starting_time()
    }

    /// The price in whole units that this oracle shows at a reading of `now`.
    pub open spec fn price_at(&self, now: int) -> int {
        wave_price(self.elapsed_at(now))
    }

    /// The start of the wave, in whole minutes since the epoch.
    pub fn starting_minute(&self) -> (minute: i64)
        ensures
            minute * SECONDS_PER_MINUTE == self.starting_time(),
    {
        self.starting_minute
    }

    /// Creates an oracle whose wave starts at the reading `now`, taken down
    /// to the minute.
    pub fn instantiate_sugar_price_oracle(now: i64) -> (oracle: Self)
        ensures
            oracle.starting_time() == round_down_to_minute(now as int),
    {
        SugarPriceOracle { starting_minute: whole_minutes(now) }
    }

    /// The price at a reading of `now`. The oracle is left as it was.
    ///
    /// A reading from before the start is answered as well: the wave runs
    /// backwards in time with the same period.
    pub fn get_price(&mut self, now: i64) -> (price: Decimal)
        ensures
            *final(self) == *old(self),
            decimal_attos(price) == old(self).price_at(now as int) * ATTOS_PER_UNIT,
            0 <= decimal_attos(price) <= MAX_PRICE * ATTOS_PER_UNIT,
    {
        let minutes: i128 = whole_minutes(now) as i128 - self.starting_minute as i128;
        assert(SECONDS_PER_MINUTE as i128 == 60);
        let elapsed: i128 = minutes * (SECONDS_PER_MINUTE as i128);
        decimal_from_units(waveform::price(elapsed))
    }
}

/// The wave of every oracle starts on a minute boundary.
pub proof fn lemma_start_is_minute_boundary(oracle: SugarPriceOracle)
    ensures
        oracle.starting_time() % (SECONDS_PER_MINUTE as int) == 0,
{
}

/// A reading one full period later is answered with the same price.
pub proof fn lemma_price_repeats_each_period(oracle: SugarPriceOracle, now: int)
    ensures
        oracle.price_at(now + FULL_PERIOD) == oracle.price_at(now),
{
    assert(round_down_to_minute(now + FULL_PERIOD) == round_down_to_minute(now) + FULL_PERIOD);
    lemma_price_periodic(oracle.elapsed_at(now));
}

/// Two readings within the same minute are answered with the same price.
pub proof fn lemma_same_minute_same_price(oracle: SugarPriceOracle, first: int, second: int)
    requires
        minute_of(first) == minute_of(second),
    ensures
        oracle.price_at(first) == oracle.price_at(second),
{
}

} // verus!
