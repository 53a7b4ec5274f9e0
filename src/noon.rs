use vstd::prelude::*;

use vstd::arithmetic::div_mod::{lemma_fundamental_div_mod, lemma_hoist_over_denominator};

verus! {

/// A date of the proleptic Gregorian calendar.
#[derive(Clone, Copy, Debug, PartialEq, Eq, Structural)]
pub struct CivilDate {
    pub year: i32,
    pub month: u32,
    pub day: u32,
}

pub open spec fn is_leap_year(y: int) -> bool {
    (y % 4 == 0 && y % 100 != 0) || y % 400 == 0
}

pub open spec fn days_in_month(y: int, m: int) -> int {
    if m == 2 {
        if is_leap_year(y) { 29 } else { 28 }
    } else if m == 4 || m == 6 || m == 9 || m == 11 {
        30
    } else {
        31
    }
}

/// Days in the months of year `y` that come before month `m`.
pub open spec fn days_before_month(y: int, m: int) -> int {
    let leap: int = if is_leap_year(y) { 1 } else { 0 };
    if m <= 1 { 0 }
    else if m == 2 { 31 }
    else if m == 3 { 59 + leap }
    else if m == 4 { 90 + leap }
    else if m == 5 { 120 + leap }
    else if m == 6 { 151 + leap }
    else if m == 7 { 181 + leap }
    else if m == 8 { 212 + leap }
    else if m == 9 { 243 + leap }
    else if m == 10 { 273 + leap }
    else if m == 11 { 304 + leap }
    else { 334 + leap }
}

/// Days from 1 January of year 1 to 1 January of year `y`.
pub open spec fn days_before_year(y: int) -> int {
    365 * (y - 1) + (y - 1) / 4 - (y - 1) / 100 + (y - 1) / 400
}

/// Days from 1970-01-01 (day 0) to the given date.
pub open spec fn epoch_day_of(y: int, m: int, d: int) -> int {
    days_before_year(y) - days_before_year(1970) + days_before_month(y, m) + d - 1
}

impl CivilDate {
    /// A real date, within the years that the calendar support handles.
    pub open spec fn is_valid(self) -> bool {
        &&& -262_143 <= self.year <= 262_142
        &&& 1 <= self.month <= 12
        &&& 1 <= self.day <= days_in_month(self.year as int, self.month as int)
    }

    /// This date's day number, counted from 1970-01-01.
    pub open spec fn epoch_day_spec(self) -> int {
        epoch_day_of(self.year as int, self.month as int, self.day as int)
    }

    /// The number of days from 1970-01-01 to this date.
    pub fn epoch_day(&self) -> (r: i32)
        requires
            self.is_valid(),
        ensures
            r == self.epoch_day_spec(),
    {
        days_since_unix_epoch(self.year, self.month, self.day)
    }
}

/// Relies on chrono's `NaiveDate::from_ymd_opt`, which accepts every real
/// date in the years -262143 to 262142, and `NaiveDate::to_epoch_days`, which
/// counts days of the proleptic Gregorian calendar with 1970-01-01 as day 0.
#[verifier::external_body]
fn days_since_unix_epoch(year: i32, month: u32, day: u32) -> (r: i32)
    requires
        (CivilDate { year, month, day }).is_valid(),
    ensures
        r == epoch_day_of(year as int, month as int, day as int),
{
    chrono::NaiveDate::from_ymd_opt(year, month, day).unwrap().to_epoch_days()
}

/// Solar noon's offset from midnight UTC, in microseconds: twelve hours,
/// less four minutes per degree of east longitude, less the equation of time.
pub open spec fn noon_offset_us(longitude_udeg: int, eq_of_time_ms: int) -> int {
    43_200_000_000 - 240 * longitude_udeg - 1000 * eq_of_time_ms
}

/// The instant of solar noon, in seconds since the Unix epoch, on `date` at a
/// longitude in millionths of a degree (east positive), given the equation of
/// time in milliseconds; rounded to the nearest second, halves upward.
pub open spec fn noon_instant_of(date: CivilDate, longitude_udeg: int, eq_of_time_ms: int) -> int {
    date.epoch_day_spec() * 86_400 + (noon_offset_us(longitude_udeg, eq_of_time_ms) + 500_000)
        / 1_000_000
}

/// The UTC instant of solar noon on `date` at `longitude_udeg` (millionths
/// of a degree, east positive), given that day's equation of time in
/// milliseconds, as whole seconds since the Unix epoch.
pub fn solar_noon_instant(date: &CivilDate, longitude_udeg: i32, eq_of_time_ms: i32) -> (r: i64)
    requires
        date.is_valid(),
    ensures
        r == noon_instant_of(*date, longitude_udeg as int, eq_of_time_ms as int),
{
    let day = date.epoch_day() as i64;
    let offset_us: i64 = 43_200_000_000 - 240 * (longitude_udeg as i64) - 1000 * (
    eq_of_time_ms as i64);
    // Shift by a whole number of seconds so that the division is on a
    // non-negative value.
    let shifted: i64 = offset_us + 500_000 + 3_000_000 * 1_000_000;
    proof {
        lemma_hoist_over_denominator(offset_us + 500_000, 3_000_000, 1_000_000);
    }
    let secs: i64 = shifted / 1_000_000 - 3_000_000;
    day * 86_400 + secs
}

/// Whatever the longitude, solar noon falls, in local mean time (UTC shifted
/// by four minutes per degree of east longitude), within half a second of
/// noon less the equation of time; so between 11:00 and 13:00 whenever the
/// equation of time is within 59 minutes.
pub proof fn lemma_noon_near_local_midday(
    date: CivilDate,
    longitude_udeg: int,
    eq_of_time_ms: int,
)
    ensures
        ({
            let local_us = noon_instant_of(date, longitude_udeg, eq_of_time_ms) * 1_000_000 + 240
                * longitude_udeg;
            let midnight_us = date.epoch_day_spec() * 86_400_000_000;
            &&& midnight_us + 43_200_000_000 - 1000 * eq_of_time_ms - 500_000 < local_us
            &&& local_us <= midnight_us + 43_200_000_000 - 1000 * eq_of_time_ms + 500_000
            &&& (-3_540_000 <= eq_of_time_ms <= 3_540_000 ==> midnight_us + 39_600_000_000
                <= local_us <= midnight_us + 46_800_000_000)
        }),
{
    let x = noon_offset_us(longitude_udeg, eq_of_time_ms) + 500_000;
    lemma_fundamental_div_mod(x, 1_000_000);
    assert(0 <= x % 1_000_000 < 1_000_000);
}

} // verus!
