//! A calendar instant in the configured local time zone, held as plain
//! year, month, day, hour, minute and second fields, together with the
//! proleptic-Gregorian calendar arithmetic the scheduler needs.

use vstd::prelude::*;
use vstd::arithmetic::div_mod::lemma_mod_multiples_vanish;
use chrono::{Datelike, Timelike};

verus! {

/// An instant in the local time zone, at one-second precision.
///
/// The fields follow the proleptic Gregorian calendar; `year` may be
/// negative (astronomical numbering, with year 0 preceding year 1).
/// A value is meaningful only when it satisfies [`LocalInstant::wf`].
#[derive(Clone, Copy, Debug, PartialEq, Eq, Structural)]
pub struct LocalInstant {
    pub year: i32,
    /// Month number, 1 to 12.
    pub month: u32,
    /// Day of month, 1 up to the month's length.
    pub day: u32,
    /// Hour of day, 0 to 23.
    pub hour: u32,
    /// Minute, 0 to 59.
    pub minute: u32,
    /// Second, 0 to 59.
    pub second: u32,
}

/// Whether `year` is a leap year of the proleptic Gregorian calendar.
pub open spec fn spec_is_leap_year(year: int) -> bool {
    (year % 4 == 0 && year % 100 != 0) || year % 400 == 0
}

/// How many days the given month of the given year has.
pub open spec fn spec_days_in_month(year: int, month: int) -> int {
    if month == 2 {
        if spec_is_leap_year(year) {
            29
        } else {
            28
        }
    } else if month == 4 || month == 6 || month == 9 || month == 11 {
        30
    } else {
        31
    }
}

impl LocalInstant {
    /// A well-formed instant: every field within its calendar range.
    pub open spec fn wf(self) -> bool {
        &&& 1 <= self.month <= 12
        &&& 1 <= self.day <= spec_days_in_month(self.year as int, self.month as int)
        &&& self.hour <= 23
        &&& self.minute <= 59
        &&& self.second <= 59
    }

    /// `self` is no later than `other`: lexicographic order on the fields,
    /// from year down to second.
    pub open spec fn spec_le(self, other: Self) -> bool {
        if self.year != other.year {
            self.year < other.year
        } else if self.month != other.month {
            self.month < other.month
        } else if self.day != other.day {
            self.day < other.day
        } else if self.hour != other.hour {
            self.hour < other.hour
        } else if self.minute != other.minute {
            self.minute < other.minute
        } else {
            self.second <= other.second
        }
    }

    /// Builds an instant from its fields, refusing any combination that is
    /// not a real calendar date and time.
    pub fn new(
        year: i32,
        month: u32,
        day: u32,
        hour: u32,
        minute: u32,
        second: u32,
    ) -> (r: Option<LocalInstant>)
        ensures
            match r {
                Some(t) => {
                    &&& t.wf()
                    &&& t == (LocalInstant { year, month, day, hour, minute, second })
                },
                None => !(LocalInstant { year, month, day, hour, minute, second }).wf(),
            },
    {
        if 1 <= month && month <= 12 && 1 <= day && day <= days_in_month(year, month) && hour
            <= 23 && minute <= 59 && second <= 59 {
            Some(LocalInstant { year, month, day, hour, minute, second })
        } else {
            None
        }
    }

    /// `self` is no later than `other`.
    pub fn is_before_or_at(&self, other: &LocalInstant) -> (r: bool)
        ensures
            r == self.spec_le(*other),
    {
        if self.year != other.year {
            self.year < other.year
        } else if self.month != other.month {
            self.month < other.month
        } else if self.day != other.day {
            self.day < other.day
        } else if self.hour != other.hour {
            self.hour < other.hour
        } else if self.minute != other.minute {
            self.minute < other.minute
        } else {
            self.second <= other.second
        }
    }
}

/// The clock: the current date and time in the local zone, as plain fields.
///
/// Relies on chrono's `Local::now`, read through the `Datelike` and
/// `Timelike` accessors, whose documentation gives the field ranges (month
/// 1 to 12, day 1 to 31 and valid for the month, hour 0 to 23, minute and
/// second 0 to 59); the year of a chrono date lies within about
/// +/- 262000 of zero.  The result depends on the wall clock, so nothing
/// connects two calls: only validity is promised.
#[verifier::external_body]
pub(crate) fn local_now() -> (r: LocalInstant)
    ensures
        r.wf(),
        -262144 <= r.year <= 262143,
{
    let t = chrono::Local::now();
    LocalInstant {
        year: t.year(),
        month: t.month(),
        day: t.day(),
        hour: t.hour(),
        minute: t.minute(),
        second: t.second(),
    }
}

/// Whether `year` is a leap year.
pub fn is_leap_year(year: i32) -> (r: bool)
    ensures
        r == spec_is_leap_year(year as int),
{
    // Shift by a multiple of 400 years so the remainders are taken of a
    // nonnegative number; the leap pattern repeats every 400 years.
    let shifted: i64 = (year as i64) + 2_400_000_000i64;
    proof {
        lemma_mod_multiples_vanish(600_000_000int, year as int, 4int);
        lemma_mod_multiples_vanish(24_000_000int, year as int, 100int);
        lemma_mod_multiples_vanish(6_000_000int, year as int, 400int);
    }
    (shifted % 4 == 0 && shifted % 100 != 0) || shifted % 400 == 0
}

/// How many days the given month of the given year has.
pub fn days_in_month(year: i32, month: u32) -> (d: u32)
    requires
        1 <= month <= 12,
    ensures
        d == spec_days_in_month(year as int, month as int),
{
    if month == 2 {
        if is_leap_year(year) {
            29
        } else {
            28
        }
    } else if month == 4 || month == 6 || month == 9 || month == 11 {
        30
    } else {
        31
    }
}

} // verus!
