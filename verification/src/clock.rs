//! Wall-clock time and calendar dates, modelled as seconds since the Unix
//! epoch.  The clock itself and the calendar arithmetic live in an outside
//! crate; everything this crate states about a date is over plain integers.

use vstd::prelude::*;

verus! {

/// The Unix timestamp of midnight (UTC) on the given proleptic-Gregorian
/// calendar date; a pure function of the date alone.
pub uninterp spec fn ts_of_ymd(y: int, m: int, d: int) -> int;

/// A leap year of the proleptic Gregorian calendar.
pub open spec fn leap_year(y: int) -> bool {
    y % 4 == 0 && (y % 100 != 0 || y % 400 == 0)
}

/// How many days the given month of the given year has.
pub open spec fn days_in_month(y: int, m: int) -> int {
    if m == 2 {
        if leap_year(y) {
            29
        } else {
            28
        }
    } else if m == 4 || m == 6 || m == 9 || m == 11 {
        30
    } else {
        31
    }
}

/// A well-formed calendar date with a four-digit year, as the date pickers
/// of the surrounding application produce.
pub open spec fn valid_ymd(y: int, m: int, d: int) -> bool {
    &&& 1 <= y <= 9999
    &&& 1 <= m <= 12
    &&& 1 <= d <= days_in_month(y, m)
}

/// Whether the given calendar date is well-formed, exactly as `valid_ymd`
/// states; callers test this before building values that require a valid
/// date.
pub fn is_valid_ymd(y: u32, m: u32, d: u32) -> (r: bool)
    ensures
        r == valid_ymd(y as int, m as int, d as int),
{
    if y < 1 || y > 9999 || m < 1 || m > 12 || d < 1 {
        return false;
    }
    let leap = y % 4 == 0 && (y % 100 != 0 || y % 400 == 0);
    let dim: u32 = if m == 2 {
        if leap {
            29
        } else {
            28
        }
    } else if m == 4 || m == 6 || m == 9 || m == 11 {
        30
    } else {
        31
    };
    d <= dim
}

/// Relies on chrono's Utc::now: the current wall-clock time in seconds since
/// the Unix epoch.  Nothing is assumed of the value; the clock may even move
/// backwards between calls.
#[verifier::external_body]
pub fn now_ts() -> i64 {
    chrono::Utc::now().timestamp()
}

/// Relies on chrono's NaiveDate::from_ymd_opt, NaiveDate::and_hms_opt and
/// DateTime::timestamp: every well-formed calendar date has a timestamp for
/// its midnight (UTC), that timestamp depends on the arguments alone, and a
/// date that chrono rejects has none.
#[verifier::external_body]
pub fn timestamp_of_ymd(y: u32, m: u32, d: u32) -> (r: Option<i64>)
    ensures
        valid_ymd(y as int, m as int, d as int) ==> r is Some,
        r matches Some(t) ==> t == ts_of_ymd(y as int, m as int, d as int),
{
    match chrono::NaiveDate::from_ymd_opt(y as i32, m, d) {
        Some(date) => match date.and_hms_opt(0, 0, 0) {
            Some(dt) => Some(dt.and_utc().timestamp()),
            None => None,
        },
        None => None,
    }
}

} // verus!
