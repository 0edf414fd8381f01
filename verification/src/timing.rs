//! The timing model: from a sampled rate to a concrete, strictly
//! positive wait before each character.
//!
//! The caller draws a candidate rate around the configured mean (the
//! absolute value of a draw from a normal distribution), and the wait
//! is the reciprocal of that rate.  All rates are in millicharacters
//! per second and all delays in microseconds, so one character per
//! second gives a delay of one second.

use vstd::prelude::*;
use crate::config::SimulationConfig;

verus! {

/// The floor a sampled rate is clamped to, in millicharacters per
/// second: the smallest positive rate, which keeps every delay
/// bounded instead of letting a zero rate turn into an unbounded
/// wait.
pub const RATE_FLOOR_MILLI: u64 = 1;

/// The ceiling a sampled rate is clamped to, in millicharacters per
/// second: one million characters per second, which keeps every delay
/// at least one microsecond, hence strictly positive.
pub const RATE_CEIL_MILLI: u64 = 1_000_000_000;

/// The numerator of the reciprocal: a delay in microseconds is this
/// constant divided by a rate in millicharacters per second.
pub const DELAY_NUMER_MICROS: u64 = 1_000_000_000;

/// A sampled rate, clamped into the bounded band
/// `[RATE_FLOOR_MILLI, RATE_CEIL_MILLI]`.
pub open spec fn clamped_rate(rate_milli: int) -> int {
    if rate_milli < RATE_FLOOR_MILLI {
        RATE_FLOOR_MILLI as int
    } else if rate_milli > RATE_CEIL_MILLI {
        RATE_CEIL_MILLI as int
    } else {
        rate_milli
    }
}

/// The delay, in microseconds, that a sampled rate yields: the
/// reciprocal of the clamped rate.
pub open spec fn delay_micros_spec(rate_milli: int) -> int {
    DELAY_NUMER_MICROS as int / clamped_rate(rate_milli)
}

/// Every delay the timing model can yield is strictly positive and at
/// most one second, whatever rate was sampled.
pub proof fn lemma_delay_bounds(rate_milli: int)
    ensures
        1 <= delay_micros_spec(rate_milli) <= DELAY_NUMER_MICROS,
{
    let c = clamped_rate(rate_milli);
    assert(1 <= c <= DELAY_NUMER_MICROS);
    assert(1 <= DELAY_NUMER_MICROS as int / c <= DELAY_NUMER_MICROS) by (nonlinear_arith)
        requires
            1 <= c <= DELAY_NUMER_MICROS,
    ;
}

/// A zero-variance distribution is a constant: every draw is the mean
/// itself, so under zero variability every delay is the same, and for
/// a mean rate inside the clamping band it is exactly the reciprocal
/// of the mean rate.
pub proof fn lemma_zero_variability_delay(config: SimulationConfig, rate_milli: u64)
    requires
        config.valid(),
        config.variability_milli == 0,
        rate_milli == config.mean_rate_milli,
    ensures
        delay_micros_spec(rate_milli as int) == delay_micros_spec(config.mean_rate_milli as int),
        config.mean_rate_milli <= RATE_CEIL_MILLI ==> delay_micros_spec(rate_milli as int)
            == DELAY_NUMER_MICROS as int / config.mean_rate_milli as int,
{
}

/// The delay the given sampled rate yields, after clamping the rate
/// into its bounded band: finite by construction and strictly
/// positive for every input.
pub fn delay_micros_for_rate(rate_milli: u64) -> (d: u64)
    ensures
        d == delay_micros_spec(rate_milli as int),
        1 <= d <= DELAY_NUMER_MICROS,
{
    let clamped: u64 = if rate_milli < RATE_FLOOR_MILLI {
        RATE_FLOOR_MILLI
    } else if rate_milli > RATE_CEIL_MILLI {
        RATE_CEIL_MILLI
    } else {
        rate_milli
    };
    proof {
        lemma_delay_bounds(rate_milli as int);
    }
    DELAY_NUMER_MICROS / clamped
}

} // verus!
