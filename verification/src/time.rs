//! Time intervals and the fixed instants of the paired-time transform.
//!
//! Instants are milliseconds since the Unix epoch, UTC.  The calendar
//! arithmetic itself is done by chrono behind one trusted wrapper; its
//! result is pinned to the standard civil-calendar day count stated here.

use vstd::prelude::*;

verus! {

/// The time interval a tile is valid for: a closed range of instants in
/// milliseconds since the Unix epoch.
#[derive(Clone, Copy, Debug, PartialEq, Eq, Structural)]
pub struct TimeInterval {
    pub start: i64,
    pub end: i64,
}

impl TimeInterval {
    /// The start does not lie after the end.
    pub open spec fn wf(self) -> bool {
        self.start <= self.end
    }

    /// Builds a time interval, rejecting an end before the start.
    pub fn new(start: i64, end: i64) -> (r: Option<TimeInterval>)
        ensures
            r is Some <==> start <= end,
            r matches Some(t) ==> t == (TimeInterval { start, end }),
    {
        if start <= end {
            Some(TimeInterval { start, end })
        } else {
            None
        }
    }

    /// The degenerate interval at a single instant.
    pub fn at_instant(instant: i64) -> (r: TimeInterval)
        ensures
            r == (TimeInterval { start: instant, end: instant }),
            r.wf(),
    {
        TimeInterval { start: instant, end: instant }
    }
}

/// Proleptic Gregorian leap years.
pub open spec fn is_leap_year(y: int) -> bool {
    (y % 4 == 0 && y % 100 != 0) || y % 400 == 0
}

/// The number of days of month `m` of year `y` in the proleptic Gregorian
/// calendar.
pub open spec fn days_in_month(y: int, m: int) -> int {
    if m == 2 {
        if is_leap_year(y) {
            29
        } else {
            28
        }
    } else if m == 4 || m == 6 || m == 9 || m == 11 {
        30
    } else {
        31
    }
}

/// A month and day that exist in year `y`.
pub open spec fn valid_date(y: int, m: int, d: int) -> bool {
    1 <= m <= 12 && 1 <= d <= days_in_month(y, m)
}

/// The number of days from the Unix epoch (1970-01-01) to the proleptic
/// Gregorian date `y`-`m`-`d`: the standard civil-calendar day count,
/// reckoned over 400-year eras that start on the first of March.
pub open spec fn days_from_unix_epoch(y: int, m: int, d: int) -> int {
    let yy = if m <= 2 { y - 1 } else { y };
    let era = yy / 400;
    let yoe = yy - era * 400;
    let mp = if m > 2 { m - 3 } else { m + 9 };
    let doy = (153 * mp + 2) / 5 + d - 1;
    let doe = yoe * 365 + yoe / 4 - yoe / 100 + doy;
    era * 146097 + doe - 719468
}

/// Relies on chrono's `NaiveDate::from_ymd_opt`, `NaiveDate::and_hms_opt`,
/// `NaiveDateTime::and_utc` and `DateTime::timestamp_millis`: a calendar
/// date within years 1 to 9999 exists exactly when month and day are in
/// range, and its UTC midnight lies a whole number of 86 400 000 ms days
/// from the Unix epoch, by the proleptic Gregorian day count.
#[verifier::external_body]
fn ymd_utc_midnight_millis(year: i32, month: u32, day: u32) -> (r: Option<i64>)
    requires
        1 <= year <= 9999,
    ensures
        r is Some <==> valid_date(year as int, month as int, day as int),
        r matches Some(ms) ==> ms == 86_400_000 * days_from_unix_epoch(
            year as int,
            month as int,
            day as int,
        ),
{
    let date = chrono::NaiveDate::from_ymd_opt(year, month, day)?;
    let midnight = date.and_hms_opt(0, 0, 0)?;
    Some(midnight.and_utc().timestamp_millis())
}

/// The two fixed instants the paired-time transform queries: the first of
/// January and the first of June of 2014, each as the degenerate interval
/// at UTC midnight.
pub fn change_detection_instants() -> (r: (TimeInterval, TimeInterval))
    ensures
        r.0.start == 86_400_000 * days_from_unix_epoch(2014, 1, 1),
        r.0.start == 1_388_534_400_000,
        r.0.end == r.0.start,
        r.1.start == 86_400_000 * days_from_unix_epoch(2014, 6, 1),
        r.1.start == 1_401_580_800_000,
        r.1.end == r.1.start,
        r.0.wf(),
        r.1.wf(),
{
    proof {
        assert(valid_date(2014, 1, 1));
        assert(valid_date(2014, 6, 1));
        assert(days_from_unix_epoch(2014, 1, 1) == 16071);
        assert(days_from_unix_epoch(2014, 6, 1) == 16222);
    }
    let before = ymd_utc_midnight_millis(2014, 1, 1).unwrap();
    let after = ymd_utc_midnight_millis(2014, 6, 1).unwrap();
    (TimeInterval::at_instant(before), TimeInterval::at_instant(after))
}

} // verus!
