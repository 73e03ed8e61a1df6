//! Durations in words: the label of an answer button.

use vstd::prelude::*;
use vstd::string::StringExecFns;

verus! {

pub const MINUTE: u64 = 60;

pub const HOUR: u64 = 3_600;

pub const DAY: u64 = 86_400;

/// A month of thirty days, in seconds.
pub const MONTH: u64 = 2_592_000;

/// A year of 365 days, in seconds.
pub const YEAR: u64 = 31_536_000;

/// The unit in which a duration is told.
#[derive(Clone, Copy, Debug, PartialEq, Eq, Structural)]
pub enum TimeUnit {
    Seconds,
    Minutes,
    Hours,
    Days,
    Months,
    Years,
}

/// The largest unit that a duration of `seconds` fills at least once.
pub open spec fn natural_unit(seconds: int) -> TimeUnit {
    if seconds < MINUTE {
        TimeUnit::Seconds
    } else if seconds < HOUR {
        TimeUnit::Minutes
    } else if seconds < DAY {
        TimeUnit::Hours
    } else if seconds < MONTH {
        TimeUnit::Days
    } else if seconds < YEAR {
        TimeUnit::Months
    } else {
        TimeUnit::Years
    }
}

/// The length of a unit in seconds.
pub open spec fn unit_seconds(unit: TimeUnit) -> int {
    match unit {
        TimeUnit::Seconds => 1,
        TimeUnit::Minutes => MINUTE as int,
        TimeUnit::Hours => HOUR as int,
        TimeUnit::Days => DAY as int,
        TimeUnit::Months => MONTH as int,
        TimeUnit::Years => YEAR as int,
    }
}

/// The letters that stand for a unit.
pub open spec fn unit_suffix(unit: TimeUnit) -> Seq<char> {
    match unit {
        TimeUnit::Seconds => "s"@,
        TimeUnit::Minutes => "m"@,
        TimeUnit::Hours => "h"@,
        TimeUnit::Days => "d"@,
        TimeUnit::Months => "mo"@,
        TimeUnit::Years => "y"@,
    }
}

/// The tenths of `unit` in `seconds`, rounded half up. Seconds and days
/// are told in whole units, so their tenths end in zero.
pub open spec fn rounded_tenths(seconds: int, unit: TimeUnit) -> int {
    let length = unit_seconds(unit);
    if unit == TimeUnit::Seconds || unit == TimeUnit::Days {
        (seconds + length / 2) / length * 10
    } else {
        (seconds * 10 + length / 2) / length
    }
}

/// The character of a decimal digit.
pub open spec fn digit(value: int) -> char {
    if value == 0 {
        '0'
    } else if value == 1 {
        '1'
    } else if value == 2 {
        '2'
    } else if value == 3 {
        '3'
    } else if value == 4 {
        '4'
    } else if value == 5 {
        '5'
    } else if value == 6 {
        '6'
    } else if value == 7 {
        '7'
    } else if value == 8 {
        '8'
    } else {
        '9'
    }
}

/// The decimal digits of `number`, without leading zeros.
pub open spec fn decimal(number: nat) -> Seq<char>
    decreases number,
{
    if number < 10 {
        seq![digit(number as int)]
    } else {
        decimal(number / 10).push(digit((number % 10) as int))
    }
}

/// A duration of `seconds` in words: the amount in its natural unit, with
/// one decimal place unless that place is zero, and the unit's letters.
pub open spec fn duration_text(seconds: int) -> Seq<char> {
    let unit = natural_unit(seconds);
    let tenths = rounded_tenths(seconds, unit);
    let amount = if tenths % 10 == 0 {
        decimal((tenths / 10) as nat)
    } else {
        decimal((tenths / 10) as nat) + "."@ + decimal((tenths % 10) as nat)
    };
    amount + unit_suffix(unit)
}

/// The decimal digits of `number` as `u64`'s `Display` writes them, through
/// `format!`.
///
/// Trusted: the text holds the digits of the number in base ten, most
/// significant first, and a single zero for zero.
#[verifier::external_body]
fn decimal_string(number: u64) -> (text: String)
    ensures
        text@ == decimal(number as nat),
{
    format!("{}", number)
}

/// The unit in which a duration of `seconds` is told.
pub fn unit_of(seconds: u64) -> (unit: TimeUnit)
    ensures
        unit == natural_unit(seconds as int),
{
    if seconds < MINUTE {
        TimeUnit::Seconds
    } else if seconds < HOUR {
        TimeUnit::Minutes
    } else if seconds < DAY {
        TimeUnit::Hours
    } else if seconds < MONTH {
        TimeUnit::Days
    } else if seconds < YEAR {
        TimeUnit::Months
    } else {
        TimeUnit::Years
    }
}

/// The label of an answer button that stands for a wait of `seconds`,
/// such as `30s`, `10m`, `1.5h`, `2d`, `1.2mo` or `3y`.
pub fn answer_button_time(seconds: u64) -> (text: String)
    ensures
        text@ == duration_text(seconds as int),
{
    let unit = unit_of(seconds);
    let wide: u128 = seconds as u128;
    let tenths: u128 = match unit {
        TimeUnit::Seconds => wide * 10,
        TimeUnit::Minutes => (wide * 10 + 30) / 60,
        TimeUnit::Hours => (wide * 10 + 1_800) / 3_600,
        TimeUnit::Days => (wide + 43_200) / 86_400 * 10,
        TimeUnit::Months => (wide * 10 + 1_296_000) / 2_592_000,
        TimeUnit::Years => (wide * 10 + 15_768_000) / 31_536_000,
    };
    assert(tenths == rounded_tenths(seconds as int, unit));
    assert(tenths / 10 <= u64::MAX);
    let mut text = decimal_string((tenths / 10) as u64);
    if tenths % 10 != 0 {
        text.append(".");
        let place = decimal_string((tenths % 10) as u64);
        text.append(place.as_str());
    }
    match unit {
        TimeUnit::Seconds => text.append("s"),
        TimeUnit::Minutes => text.append("m"),
        TimeUnit::Hours => text.append("h"),
        TimeUnit::Days => text.append("d"),
        TimeUnit::Months => text.append("mo"),
        TimeUnit::Years => text.append("y"),
    }
    text
}

} // verus!
