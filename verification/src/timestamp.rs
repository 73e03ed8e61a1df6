//! The clock and the day boundary.

use chrono::{FixedOffset, TimeZone};
use std::time::{Duration, UNIX_EPOCH};
use vstd::prelude::*;

verus! {

/// Seconds in a day.
pub const SECONDS_PER_DAY: i64 = 86_400;

/// The hour of the local day at which one study day ends and the next begins.
pub const ROLLOVER_HOUR: u8 = 4;

/// The timestamps whose calendar day can be computed lie between minus and
/// plus this many seconds: about 253,000 years around 1970.
pub const CALENDAR_LIMIT: i64 = 8_000_000_000_000;

/// A point in time, in seconds since the start of 1970 (UTC).
pub struct Timestamp(i64);

/// The reading of the system clock: the time that has passed since
/// `UNIX_EPOCH`, as `std::time::SystemTime::elapsed` gives it.
///
/// Trusted, and nothing is claimed of the reading. A clock that stands
/// before 1970 makes the call fail, and reads as zero here.
#[verifier::external_body]
pub fn now() -> Duration {
    match UNIX_EPOCH.elapsed() {
        Ok(elapsed) => elapsed,
        Err(_) => Duration::ZERO,
    }
}

/// `std::time::Duration::as_secs`: the whole seconds of a duration. Trusted,
/// and nothing is claimed of the number.
pub assume_specification[ Duration::as_secs ](duration: &Duration) -> (secs: u64)
;

/// The time zone offset that is used for a zone `minutes_west` of UTC, in
/// seconds west: the minutes are first brought within 23 hours of UTC.
pub open spec fn offset_seconds_west(minutes_west: int) -> int {
    if minutes_west < -1_380 {
        -82_800
    } else if minutes_west > 1_380 {
        82_800int
    } else {
        minutes_west * 60
    }
}

/// The moment at which the clocks of a zone `secs_west` of UTC show `hour`
/// o'clock on the local day that holds `now_secs`.
pub open spec fn rollover_on_day_of(now_secs: int, secs_west: int, hour: int) -> int {
    (now_secs - secs_west) / 86_400 * 86_400 + hour * 3_600 + secs_west
}

/// The first `hour` o'clock, local time, that comes after `now_secs`.
pub open spec fn next_day(now_secs: int, minutes_west: int, hour: int) -> int {
    let today = rollover_on_day_of(now_secs, offset_seconds_west(minutes_west), hour);
    if today <= now_secs {
        today + 86_400
    } else {
        today
    }
}

/// The timestamp of `rollover_hour` o'clock on the local day of `now_secs`,
/// in the zone `secs_west` seconds west of UTC, as chrono computes it:
/// `FixedOffset::west_opt` makes the zone, `TimeZone::timestamp_opt` the
/// moment, `DateTime::date_naive` takes its local date,
/// `NaiveDate::and_hms_opt` puts the hour on it,
/// `TimeZone::from_local_datetime` reads that as local time, and
/// `DateTime::timestamp` gives back seconds.
///
/// Trusted: chrono counts days of 86,400 seconds, so the local date starts
/// at the last multiple of a day in local seconds. Each of the calls fails
/// only on an offset of a day or more, an hour past 23, or a date outside
/// chrono's calendar (years around ±262,000), all left out by `requires`.
#[verifier::external_body]
fn local_rollover(now_secs: i64, secs_west: i32, rollover_hour: u8) -> (rollover: i64)
    requires
        -CALENDAR_LIMIT <= now_secs <= CALENDAR_LIMIT,
        -86_400 < secs_west < 86_400,
        rollover_hour < 24,
    ensures
        rollover == rollover_on_day_of(now_secs as int, secs_west as int, rollover_hour as int),
{
    let zone = FixedOffset::west_opt(secs_west).unwrap();
    let today = zone.timestamp_opt(now_secs, 0).unwrap().date_naive();
    let local = today.and_hms_opt(u32::from(rollover_hour), 0, 0).unwrap();
    zone.from_local_datetime(&local).unwrap().timestamp()
}

/// The offset of a zone `minutes_west` of UTC in seconds west, kept within
/// 23 hours of UTC.
pub fn fixed_offset_from_minutes(minutes_west: i32) -> (secs_west: i32)
    ensures
        secs_west == offset_seconds_west(minutes_west as int),
        -86_400 < secs_west < 86_400,
{
    let bounded: i32 = if minutes_west < -23 * 60 {
        -23 * 60
    } else if minutes_west > 23 * 60 {
        23 * 60
    } else {
        minutes_west
    };
    bounded * 60
}

/// The next day boundary after `now_secs`.
///
/// - `now_secs` is the current time;
/// - `now_mins_west` is the current offset west of UTC, in minutes;
/// - `rollover_hour` is the hour of the day at which the boundary falls
///   (4 for 4am).
///
/// The boundary lies after `now_secs` and at most a day away.
pub fn get_next_day(now_secs: i64, now_mins_west: i32, rollover_hour: u8) -> (cut_off: i64)
    requires
        -CALENDAR_LIMIT <= now_secs <= CALENDAR_LIMIT,
        rollover_hour < 24,
    ensures
        cut_off == next_day(now_secs as int, now_mins_west as int, rollover_hour as int),
        now_secs < cut_off <= now_secs + SECONDS_PER_DAY,
{
    let secs_west = fixed_offset_from_minutes(now_mins_west);
    let rollover_today = local_rollover(now_secs, secs_west, rollover_hour);
    let rollover_passed = rollover_today <= now_secs;
    if rollover_passed {
        rollover_today + SECONDS_PER_DAY
    } else {
        rollover_today
    }
}

impl Timestamp {
    /// The current time in seconds since the start of 1970. Nothing is
    /// known of a clock reading, so nothing is promised of the result.
    pub fn now() -> i64 {
        let reading = now();
        let secs: u64 = reading.as_secs();
        Self::from_secs(secs)
    }

    /// The timestamp of the moment `secs` whole seconds after the start of
    /// 1970: `secs` itself as far as `i64` reaches, wrapped round beyond.
    pub fn from_secs(secs: u64) -> (stamp: i64)
        ensures
            stamp == wrapped_seconds(secs as int),
            secs <= i64::MAX ==> stamp == secs,
    {
        if secs <= 0x7FFF_FFFF_FFFF_FFFF {
            secs as i64
        } else {
            (secs - 0x8000_0000_0000_0000) as i64 + i64::MIN
        }
    }

    /// The end of the study day that holds `now_secs`, for a zone
    /// `now_mins_west` minutes west of UTC: the next 4 o'clock in the
    /// morning, local time.
    pub fn day_cut_off(now_secs: i64, now_mins_west: i32) -> (cut_off: i64)
        requires
            -CALENDAR_LIMIT <= now_secs <= CALENDAR_LIMIT,
        ensures
            cut_off == next_day(now_secs as int, now_mins_west as int, ROLLOVER_HOUR as int),
            now_secs < cut_off <= now_secs + SECONDS_PER_DAY,
    {
        get_next_day(now_secs, now_mins_west, ROLLOVER_HOUR)
    }
}

/// A count of seconds as a 64-bit signed number: the count itself up to
/// `i64::MAX`, and from there on the count less 2 to the 64th.
pub open spec fn wrapped_seconds(secs: int) -> int {
    if secs <= i64::MAX {
        secs
    } else {
        secs - 0x1_0000_0000_0000_0000
    }
}

} // verus!
