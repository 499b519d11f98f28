//! The adaptive delay between animation frames.
use vstd::prelude::*;
use vstd::arithmetic::div_mod::lemma_div_is_ordered_by_denominator;

verus! {

/// Usage of a fully loaded CPU (100%).
pub const FULL_USAGE: u64 = 10000;

/// Usage assumed before the first measurement and whenever a measurement
/// cannot be started (1%).
pub const FALLBACK_USAGE: u64 = 100;

/// Usage at which the load factor reaches its lower bound of 1 (5%).
pub const LOW_LOAD_USAGE: u64 = 500;

/// Usage at which the load factor reaches its upper bound of 20 (100%).
pub const HIGH_LOAD_USAGE: u64 = 10000;

/// Delay between frames at a load factor of 1, in milliseconds.
pub const BASE_DELAY_MS: u64 = 200;

/// Shortest delay between frames, reached at full load, in milliseconds.
pub const MIN_DELAY_MS: u64 = 10;

/// The usage clamped into the band where the load factor `usage / 5%`
/// lies in `[1, 20]`; the load factor is this value divided by
/// `LOW_LOAD_USAGE`.
pub open spec fn clamped_usage(usage: int) -> int {
    if usage < LOW_LOAD_USAGE {
        LOW_LOAD_USAGE as int
    } else if usage > HIGH_LOAD_USAGE {
        HIGH_LOAD_USAGE as int
    } else {
        usage
    }
}

/// `200 / clamp(usage / 5%, 1, 20)` milliseconds, rounded down.
pub open spec fn delay_of(usage: int) -> int {
    (BASE_DELAY_MS * LOW_LOAD_USAGE) as int / clamped_usage(usage)
}

/// Computes the inter-frame delay in milliseconds for a usage value.
pub fn frame_delay_ms(usage: u64) -> (r: u64)
    ensures
        r == delay_of(usage as int),
        MIN_DELAY_MS <= r <= BASE_DELAY_MS,
{
    let clamped: u64 = if usage < LOW_LOAD_USAGE {
        LOW_LOAD_USAGE
    } else if usage > HIGH_LOAD_USAGE {
        HIGH_LOAD_USAGE
    } else {
        usage
    };
    proof {
        delay_bounds(usage as int);
    }
    (BASE_DELAY_MS * LOW_LOAD_USAGE) / clamped
}

/// The delay always lies between the fastest and the slowest frame rate.
pub proof fn delay_bounds(usage: int)
    ensures
        MIN_DELAY_MS <= delay_of(usage) <= BASE_DELAY_MS,
{
    let c = clamped_usage(usage);
    lemma_div_is_ordered_by_denominator(100000, 500, c);
    lemma_div_is_ordered_by_denominator(100000, c, 10000);
}

/// A higher usage never gives a longer delay.
pub proof fn delay_non_increasing(u1: int, u2: int)
    requires
        u1 <= u2,
    ensures
        delay_of(u2) <= delay_of(u1),
{
    lemma_div_is_ordered_by_denominator(100000, clamped_usage(u1), clamped_usage(u2));
}

/// At or below 5% usage the delay is the base 200 ms; at or above 100% it
/// is the shortest, 10 ms.
pub proof fn delay_at_extremes(usage: int)
    ensures
        usage <= LOW_LOAD_USAGE ==> delay_of(usage) == BASE_DELAY_MS,
        usage >= HIGH_LOAD_USAGE ==> delay_of(usage) == MIN_DELAY_MS,
        delay_of(0) == BASE_DELAY_MS,
        delay_of(FULL_USAGE as int) == MIN_DELAY_MS,
{
    assert(100000int / 500int == 200) by (nonlinear_arith);
    assert(100000int / 10000int == 10) by (nonlinear_arith);
    if usage <= LOW_LOAD_USAGE {
        assert(clamped_usage(usage) == 500);
    }
    if usage >= HIGH_LOAD_USAGE {
        assert(clamped_usage(usage) == 10000);
    }
}

} // verus!
