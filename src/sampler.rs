//! Turning one CPU measurement into a usage sample.
use vstd::prelude::*;
use crate::rate::{FALLBACK_USAGE, FULL_USAGE};

verus! {

/// Usage for an idle share given in hundredths of a percent; an idle share
/// above 100% (a noisy source) gives usage 0.
pub open spec fn usage_of_idle(idle: u64) -> u64 {
    if idle <= FULL_USAGE {
        (FULL_USAGE - idle) as u64
    } else {
        0
    }
}

/// The sample emitted for one measurement: `None` when the measurement could
/// not be started, else the idle share over the sample window.
pub open spec fn sample_of(idle: Option<u64>) -> u64 {
    match idle {
        Some(i) => usage_of_idle(i),
        None => FALLBACK_USAGE,
    }
}

/// Usage is `100% - idle`.
pub fn usage_from_idle(idle: u64) -> (r: u64)
    ensures
        r == usage_of_idle(idle),
        r <= FULL_USAGE,
{
    if idle <= FULL_USAGE {
        FULL_USAGE - idle
    } else {
        0
    }
}

/// The usage sample to send for one measurement attempt: the fallback when
/// it could not be started, else `100% - idle`.
pub fn sample_usage(idle: Option<u64>) -> (r: u64)
    ensures
        r == sample_of(idle),
        r <= FULL_USAGE,
{
    match idle {
        Some(i) => usage_from_idle(i),
        None => FALLBACK_USAGE,
    }
}

} // verus!
