//! Instants as seconds since the Unix epoch, and the proleptic Gregorian
//! calendar that maps a civil date and time of day onto them.
use chrono::Datelike;
use vstd::prelude::*;

verus! {

/// An instant, in whole seconds since 1970-01-01T00:00:00Z.
pub type Timestamp = i64;

pub const SECS_PER_MINUTE: i64 = 60;

pub const SECS_PER_HOUR: i64 = 3600;

pub const SECS_PER_DAY: i64 = 86400;

/// Day number (counted from 0001-01-01 as day 1) of 1970-01-01.
pub const EPOCH_DAY_FROM_CE: i32 = 719163;

pub open spec fn is_leap_year(y: int) -> bool {
    y % 4 == 0 && (y % 100 != 0 || y % 400 == 0)
}

pub open spec fn days_in_month(y: int, m: int) -> int {
    if m == 2 {
        if is_leap_year(y) { 29 } else { 28 }
    } else if m == 4 || m == 6 || m == 9 || m == 11 {
        30
    } else {
        31
    }
}

/// The date exists in the proleptic Gregorian calendar.
pub open spec fn valid_date(y: int, m: int, d: int) -> bool {
    1 <= m <= 12 && 1 <= d <= days_in_month(y, m)
}

/// Days in the months of year `y` that come before month `m`.
pub open spec fn days_before_month(y: int, m: int) -> int
    decreases m,
{
    if m <= 1 {
        0
    } else {
        days_before_month(y, m - 1) + days_in_month(y, m - 1)
    }
}

/// Day number of a date, with 0001-01-01 as day 1 and earlier dates below it
/// (division here rounds toward negative infinity).
pub open spec fn day_number(y: int, m: int, d: int) -> int {
    365 * (y - 1) + (y - 1) / 4 - (y - 1) / 100 + (y - 1) / 400 + days_before_month(y, m) + d
}

/// The time of day exists (no leap second).
pub open spec fn valid_time(h: int, mi: int, s: int) -> bool {
    0 <= h < 24 && 0 <= mi < 60 && 0 <= s < 60
}

/// Seconds since the epoch of a civil date and time read as UTC.
pub open spec fn civil_seconds(y: int, m: int, d: int, h: int, mi: int, s: int) -> int {
    (day_number(y, m, d) - EPOCH_DAY_FROM_CE) * SECS_PER_DAY + h * SECS_PER_HOUR + mi
        * SECS_PER_MINUTE + s
}

/// Relies on chrono's `NaiveDate::from_ymd_opt`, which gives `None` exactly for
/// a month or day that does not exist in the proleptic Gregorian calendar (the
/// years admitted here are all in its range), and on `Datelike::num_days_from_ce`,
/// which counts days with 0001-01-01 as day 1.
#[verifier::external_body]
fn days_from_ce(y: i32, m: u32, d: u32) -> (r: Option<i32>)
    requires
        0 <= y <= 9999,
    ensures
        r is Some <==> valid_date(y as int, m as int, d as int),
        r matches Some(n) ==> n == day_number(y as int, m as int, d as int),
{
    chrono::NaiveDate::from_ymd_opt(y, m, d).map(|date| date.num_days_from_ce())
}

/// The instant of a civil date and time of day read as UTC, or `None` where
/// the date or the time of day does not exist.
pub fn civil_to_timestamp(y: i32, m: u32, d: u32, h: u32, mi: u32, s: u32) -> (r: Option<Timestamp>)
    requires
        0 <= y <= 9999,
    ensures
        r is Some <==> valid_date(y as int, m as int, d as int) && valid_time(
            h as int,
            mi as int,
            s as int,
        ),
        r matches Some(t) ==> t == civil_seconds(
            y as int,
            m as int,
            d as int,
            h as int,
            mi as int,
            s as int,
        ),
{
    if h >= 24 || mi >= 60 || s >= 60 {
        return None;
    }
    match days_from_ce(y, m, d) {
        None => None,
        Some(n) => {
            let days = n as i64 - EPOCH_DAY_FROM_CE as i64;
            assert(-0x1_0000_0000 <= days <= 0x1_0000_0000);
            assert(-0x1_0000_0000 * 86400 <= days * 86400 <= 0x1_0000_0000 * 86400) by (nonlinear_arith)
                requires
                    -0x1_0000_0000 <= days <= 0x1_0000_0000,
            ;
            Some(days * SECS_PER_DAY + h as i64 * SECS_PER_HOUR + mi as i64 * SECS_PER_MINUTE
                + s as i64)
        },
    }
}

} // verus!
