//! The arithmetic of review intervals: scaling, clamping, lapses and leeches.

use vstd::prelude::*;

verus! {

/// Days in permille arithmetic: `numerator / denominator` days, times a
/// multiplier in permille, cut down to whole days.
pub open spec fn scaled(numerator: int, denominator: int, multiplier: int) -> int {
    numerator * multiplier / (denominator * 1_000)
}

/// `value` brought within bounds: above `previous`, at least one day, and,
/// whatever that gives, at most `maximum`.
pub open spec fn constrained(value: int, previous: int, maximum: int) -> int {
    let floor = if previous + 1 > 1 { previous + 1 } else { 1 };
    let raised = if value > floor { value } else { floor };
    if raised < maximum { raised } else { maximum }
}

/// The number of days by which a review due on day `due` is late on day `today`.
pub open spec fn days_overdue(today: int, due: int) -> int {
    if today - due > 0 { today - due } else { 0 }
}

/// The interval after a lapse: the old interval times the lapse multiplier
/// (in permille, cut down to whole days and to `i32`), but at least
/// `minimum` and at least one day.
pub open spec fn lapse_days(interval: int, lapse_multiplier: int, minimum: int) -> int {
    let shrunk = interval * lapse_multiplier / 1_000;
    let capped = if shrunk > i32::MAX { i32::MAX as int } else { shrunk };
    let raised = if capped > minimum { capped } else { minimum };
    if raised > 1 { raised } else { 1 }
}

/// The number of lapses from one leech warning to the next.
pub open spec fn leech_period(threshold: int) -> int {
    if threshold / 2 > 1 { threshold / 2 } else { 1 }
}

/// A card with `lapses` lapses is a leech under `threshold`: never when the
/// threshold is 0; else at the threshold and then every half threshold.
pub open spec fn is_leech(lapses: int, threshold: int) -> bool {
    threshold != 0 && lapses >= threshold && (lapses - threshold) % leech_period(threshold) == 0
}

/// Under a positive threshold the leeches are the lapse counts that lie a
/// whole number of periods above the threshold, and no others.
pub proof fn lemma_leech_periodicity(lapses: int, threshold: int)
    requires
        threshold > 0,
    ensures
        is_leech(lapses, threshold) <==> exists|k: int|
            k >= 0 && lapses == threshold + #[trigger] (k * leech_period(threshold)),
{
    let period = leech_period(threshold);
    if is_leech(lapses, threshold) {
        let k = (lapses - threshold) / period;
        assert(lapses - threshold == period * k + (lapses - threshold) % period) by {
            vstd::arithmetic::div_mod::lemma_fundamental_div_mod(lapses - threshold, period);
        }
        assert(period * k == k * period) by (nonlinear_arith);
        assert(k >= 0) by (nonlinear_arith)
            requires
                lapses - threshold >= 0,
                period > 0,
                k == (lapses - threshold) / period,
        ;
        assert(k >= 0 && lapses == threshold + k * leech_period(threshold));
    }
    if exists|k: int| k >= 0 && lapses == threshold + #[trigger] (k * leech_period(threshold)) {
        let k = choose|k: int| k >= 0 && lapses == threshold + #[trigger] (k * leech_period(threshold));
        assert(k * period >= 0) by (nonlinear_arith)
            requires
                k >= 0,
                period > 0,
        ;
        assert((k * period) % period == 0) by {
            vstd::arithmetic::div_mod::lemma_mod_multiples_basic(k, period);
        }
    }
}

/// `numerator * multiplier / (denominator * 1000)` in whole days.
pub(crate) fn scale(numerator: u128, denominator: u32, multiplier: u32) -> (days: u128)
    requires
        numerator < 0x1_0000_0000_0000_0000_0000_0000,
        0 < denominator,
    ensures
        days == scaled(numerator as int, denominator as int, multiplier as int),
{
    assert(numerator * multiplier < 0x1_0000_0000_0000_0000_0000_0000 * 0x1_0000_0000)
        by (nonlinear_arith)
        requires
            numerator < 0x1_0000_0000_0000_0000_0000_0000,
            multiplier < 0x1_0000_0000,
    ;
    let product: u128 = numerator * (multiplier as u128);
    let divisor: u128 = (denominator as u128) * 1_000;
    product / divisor
}

/// `constrained` on machine integers.
pub fn clamp_interval(value: i64, previous: i32, maximum: i32) -> (days: i32)
    ensures
        days == constrained(value as int, previous as int, maximum as int),
{
    let next: i64 = previous as i64 + 1;
    let floor: i64 = if next > 1 { next } else { 1 };
    let raised: i64 = if value > floor { value } else { floor };
    if raised < maximum as i64 {
        raised as i32
    } else {
        maximum
    }
}

} // verus!
