//! Calendar model of a local wall-clock time, and the trusted bridge
//! to the system clock and time zone.
//!
//! A [`LocalTime`] holds the broken-down fields of a local datetime as
//! plain integers; ordering of two local times is lexicographic over
//! the fields. The conversions that only the time-zone database can
//! answer (the time now, a UNIX timestamp rendered in local time) are
//! trusted wrappers around the `chrono` crate.

use vstd::prelude::*;

use chrono::{Datelike, Timelike};

verus! {

/// A local wall-clock datetime, broken into calendar fields.
#[derive(Debug, Clone, Copy, PartialEq, Eq, Structural)]
pub struct LocalTime {
    pub year: i32,
    pub month: u32,
    pub day: u32,
    pub hour: u32,
    pub minute: u32,
    pub second: u32,
}

/// Proleptic Gregorian leap year: divisible by 4, except centuries
/// not divisible by 400.
pub open spec fn is_leap_year(y: int) -> bool {
    let a = if y < 0 {
        -y
    } else {
        y
    };
    a % 4 == 0 && (a % 100 != 0 || a % 400 == 0)
}

/// Number of days of month `m` (1-12) in year `y`.
pub open spec fn days_in_month(y: int, m: int) -> int {
    if m == 2 {
        if is_leap_year(y) {
            29
        } else {
            28
        }
    } else if m == 4 || m == 6 || m == 9 || m == 11 {
        30
    } else {
        31
    }
}

/// Executable mirror of [`is_leap_year`].
pub fn leap_year(y: i32) -> (r: bool)
    requires
        -1_000_000 <= y <= 1_000_000,
    ensures
        r == is_leap_year(y as int),
{
    let a: i32 = if y < 0 {
        -y
    } else {
        y
    };
    a % 4 == 0 && (a % 100 != 0 || a % 400 == 0)
}

impl LocalTime {
    /// A well-formed local time: fields within calendar ranges, the
    /// day valid for its month, and the year within the range that
    /// the timestamp conversion can produce.
    pub open spec fn wf(self) -> bool {
        &&& -300_000 <= self.year <= 300_000
        &&& 1 <= self.month <= 12
        &&& 1 <= self.day <= days_in_month(self.year as int, self.month as int)
        &&& self.hour <= 23
        &&& self.minute <= 59
        &&& self.second <= 59
    }

    /// Executable mirror of [`LocalTime::wf`].
    pub fn valid(&self) -> (r: bool)
        ensures
            r == self.wf(),
    {
        if !(-300_000 <= self.year && self.year <= 300_000) {
            return false;
        }
        let dim: u32 = if self.month == 2 {
            if leap_year(self.year) {
                29
            } else {
                28
            }
        } else if self.month == 4 || self.month == 6 || self.month == 9 || self.month == 11 {
            30
        } else {
            31
        };
        1 <= self.month && self.month <= 12 && 1 <= self.day && self.day <= dim && self.hour <= 23
            && self.minute <= 59 && self.second <= 59
    }
}

/// Strict lexicographic order over the calendar fields: `a` is an
/// earlier wall-clock moment than `b`.
pub open spec fn time_lt(a: LocalTime, b: LocalTime) -> bool {
    if a.year != b.year {
        a.year < b.year
    } else if a.month != b.month {
        a.month < b.month
    } else if a.day != b.day {
        a.day < b.day
    } else if a.hour != b.hour {
        a.hour < b.hour
    } else if a.minute != b.minute {
        a.minute < b.minute
    } else {
        a.second < b.second
    }
}

/// Executable mirror of [`time_lt`].
pub fn time_before(a: &LocalTime, b: &LocalTime) -> (r: bool)
    ensures
        r == time_lt(*a, *b),
{
    if a.year != b.year {
        a.year < b.year
    } else if a.month != b.month {
        a.month < b.month
    } else if a.day != b.day {
        a.day < b.day
    } else if a.hour != b.hour {
        a.hour < b.hour
    } else if a.minute != b.minute {
        a.minute < b.minute
    } else {
        a.second < b.second
    }
}

/// The least UNIX timestamp that chrono can represent as a datetime:
/// midnight of its earliest date.
pub const MIN_TIMESTAMP: i64 = -8_334_601_228_800;

/// The greatest UNIX timestamp that chrono can represent as a
/// datetime: the last second of its latest date.
pub const MAX_TIMESTAMP: i64 = 8_210_266_876_799;

/// Relies on `chrono::DateTime::from_timestamp` and
/// `DateTime::with_timezone(&chrono::Local)`: the conversion succeeds
/// exactly for the timestamps chrono's datetime range covers, and the
/// result is a valid local calendar datetime (at the range's ends the
/// local rendering clamps to chrono's sentinel dates, themselves valid
/// calendar dates). Which fields come back depends on the machine's
/// time zone, so nothing more is stated of them.
#[verifier::external_body]
pub fn timestamp_to_local(secs: i64) -> (r: Option<LocalTime>)
    ensures
        r is Some <==> MIN_TIMESTAMP <= secs <= MAX_TIMESTAMP,
        r matches Some(t) ==> t.wf(),
{
    let utc = chrono::DateTime::from_timestamp(secs, 0)?;
    let dt = utc.with_timezone(&chrono::Local);
    Some(LocalTime {
        year: dt.year(),
        month: dt.month(),
        day: dt.day(),
        hour: dt.hour(),
        minute: dt.minute(),
        second: dt.second(),
    })
}

} // verus!
