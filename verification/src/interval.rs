//! The click interval: its bounds and how one cycle divides it.

use vstd::prelude::*;
use crate::error::{ClickError, Rejection};

verus! {

/// The shortest interval, in milliseconds, that the engine accepts.
pub const MIN_INTERVAL_MS: u64 = 10;

/// The longest interval, in milliseconds, that the engine accepts.
pub const MAX_INTERVAL_MS: u64 = 10000;

/// The outcome of validating a requested interval.
pub open spec fn interval_verdict(interval_ms: u64) -> Result<u64, Rejection> {
    if interval_ms < MIN_INTERVAL_MS {
        Err(Rejection::IntervalTooSmall { interval_ms })
    } else if interval_ms > MAX_INTERVAL_MS {
        Err(Rejection::IntervalTooLarge { interval_ms })
    } else {
        Ok(interval_ms)
    }
}

/// Checks a requested interval against the fixed bounds and hands it back
/// unchanged when it lies within them.
pub fn validate_interval(interval_ms: u64) -> (r: Result<u64, ClickError>)
    ensures
        match interval_verdict(interval_ms) {
            Ok(ms) => r == Ok::<u64, ClickError>(ms),
            Err(rejection) => r is Err && r->Err_0@ == rejection,
        },
{
    if interval_ms < MIN_INTERVAL_MS {
        Err(ClickError::IntervalTooSmall { interval_ms })
    } else if interval_ms > MAX_INTERVAL_MS {
        Err(ClickError::IntervalTooLarge { interval_ms })
    } else {
        Ok(interval_ms)
    }
}

/// How long the button is held down in one cycle: half the interval,
/// rounded down, but never less than one millisecond.
pub open spec fn press_time(interval_ms: u64) -> int {
    if interval_ms / 2 >= 1 {
        interval_ms as int / 2
    } else {
        1
    }
}

/// How long the button rests after its release in one cycle: what the press
/// leaves of the interval, but never less than one millisecond.
pub open spec fn release_time(interval_ms: u64) -> int {
    if interval_ms - press_time(interval_ms) >= 1 {
        interval_ms - press_time(interval_ms)
    } else {
        1
    }
}

/// The press phase of a cycle, in milliseconds.
pub fn press_duration(interval_ms: u64) -> (ms: u64)
    ensures
        ms == press_time(interval_ms),
        ms >= 1,
{
    let half: u64 = interval_ms / 2;
    if half >= 1 {
        half
    } else {
        1
    }
}

/// The release phase of a cycle, in milliseconds.
pub fn release_duration(interval_ms: u64) -> (ms: u64)
    ensures
        ms == release_time(interval_ms),
        ms >= 1,
{
    let rest: u64 = interval_ms - interval_ms / 2;
    if rest >= 1 {
        rest
    } else {
        1
    }
}

/// From two milliseconds on, the two phases of a cycle add up to the
/// interval; below that each phase still lasts one millisecond.
pub proof fn lemma_phases_fill_interval(interval_ms: u64)
    ensures
        press_time(interval_ms) >= 1,
        release_time(interval_ms) >= 1,
        interval_ms >= 2 ==> press_time(interval_ms) + release_time(interval_ms) == interval_ms,
        interval_ms < 2 ==> press_time(interval_ms) == 1 && release_time(interval_ms) == 1,
{
}

} // verus!
