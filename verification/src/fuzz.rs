//! Fuzz: bounded jitter that keeps reviews from clumping on one day.

use crate::random::uniform_random;
use crate::scheduler::Scheduler;
use vstd::prelude::*;

verus! {

/// How far a fuzzed interval may lie from `interval`: a quarter of it below
/// a week, 15% (at least 2) below thirty days, 5% (at least 4) from there
/// on, and never less than one day.
pub open spec fn fuzz_jitter(interval: int) -> int {
    let share = if interval < 7 {
        interval / 4
    } else if interval < 30 {
        if interval * 15 / 100 < 2 { 2 } else { interval * 15 / 100 }
    } else {
        if interval * 5 / 100 < 4 { 4 } else { interval * 5 / 100 }
    };
    if share < 1 { 1 } else { share }
}

/// The inclusive range from which the fuzzed value of `interval` is drawn.
pub open spec fn fuzz_range(interval: int) -> (int, int) {
    if 0 <= interval <= 1 {
        (1, 1)
    } else if interval == 2 {
        (2, 3)
    } else {
        (interval - fuzz_jitter(interval), interval + fuzz_jitter(interval))
    }
}

/// `value` is a possible fuzzed value of `interval`.
pub open spec fn in_fuzz_range(interval: int, value: int) -> bool {
    fuzz_range(interval).0 <= value <= fuzz_range(interval).1
}

/// Both ends of the fuzz range of `interval` are `i32` values.
pub open spec fn fuzz_fits(interval: int) -> bool {
    i32::MIN <= fuzz_range(interval).0 && fuzz_range(interval).1 <= i32::MAX
}

/// The fuzz range of an interval that is not negative starts at one day or
/// later and is not empty; from one day on it holds the interval itself.
pub proof fn lemma_fuzz_range_valid(interval: int)
    requires
        interval >= 0,
    ensures
        1 <= fuzz_range(interval).0 <= fuzz_range(interval).1,
        interval >= 1 ==> in_fuzz_range(interval, interval),
{
}

/// The fuzz range of `interval`, computed without a draw.
pub(crate) fn fuzz_bounds(interval: i64) -> (range: (i64, i64))
    requires
        -0x4000_0000_0000_0000 <= interval <= 0x4000_0000_0000_0000,
    ensures
        range.0 == fuzz_range(interval as int).0,
        range.1 == fuzz_range(interval as int).1,
{
    if 0 <= interval && interval <= 1 {
        (1, 1)
    } else if interval == 2 {
        (2, 3)
    } else {
        let share: i64 = if interval < 7 {
            interval / 4
        } else if interval < 30 {
            let part: i64 = interval * 15 / 100;
            if part < 2 { 2 } else { part }
        } else {
            let part: i64 = interval / 20;
            if part < 4 { 4 } else { part }
        };
        let jitter: i64 = if share < 1 { 1 } else { share };
        (interval - jitter, interval + jitter)
    }
}

/// Draws the fuzzed value of `interval`.
pub(crate) fn fuzz_draw(interval: i64) -> (value: i64)
    requires
        -0x4000_0000_0000_0000 <= interval <= 0x4000_0000_0000_0000,
    ensures
        in_fuzz_range(interval as int, value as int),
{
    let (low, high) = fuzz_bounds(interval);
    uniform_random(low, high)
}

impl Scheduler {
    /// The inclusive range from which `fuzz_interval` draws.
    pub fn fuzz_interval_range(interval: i32) -> (range: (i32, i32))
        requires
            fuzz_fits(interval as int),
        ensures
            range.0 == fuzz_range(interval as int).0,
            range.1 == fuzz_range(interval as int).1,
            interval >= 0 ==> 1 <= range.0 <= range.1,
    {
        let (low, high) = fuzz_bounds(interval as i64);
        (low as i32, high as i32)
    }

    /// Draws a uniform value from the fuzz range of `interval`.
    pub fn fuzz_interval(interval: i32) -> (value: i32)
        requires
            fuzz_fits(interval as int),
        ensures
            in_fuzz_range(interval as int, value as int),
            interval >= 0 ==> value >= 1,
    {
        let value = fuzz_draw(interval as i64);
        value as i32
    }
}

} // verus!
