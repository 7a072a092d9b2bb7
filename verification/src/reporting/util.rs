//! The calendar arithmetic behind monthly schedules: given a (day, hour,
//! minute) pattern and an instant `now`, compute the next instant matching
//! the pattern.
//!
//! The rules, stated once here and proved below:
//! - a pattern whose `day` has not yet been reached this month (`day >
//!   now.day`) runs this month; a pattern whose `day` is today or earlier
//!   (`day <= now.day`) runs next month, December wrapping to January with
//!   the year incremented;
//! - a `day` past the end of the chosen month is clamped to that month's
//!   last day (day 31 runs on June 30, day 30 on February 28 or 29);
//! - the pattern is valid when `day` is 1 to 31, `hour` 0 to 23 and
//!   `minute` 0 to 59; anything else is refused before any state changes.

use vstd::prelude::*;
use crate::reporting::errors::ScheduleError;
use crate::reporting::instants::{days_in_month, local_now, spec_days_in_month, LocalInstant};

verus! {

/// The ranges a monthly (day, hour, minute) pattern must lie in.
pub open spec fn spec_valid_monthly_pattern(day: u32, hour: u32, minute: u32) -> bool {
    &&& 1 <= day <= 31
    &&& hour <= 23
    &&& minute <= 59
}

/// The year and month in which the next occurrence of a day-of-month
/// pattern falls, relative to `now`: the current month while `day` is still
/// ahead, otherwise the following month.
pub open spec fn spec_target_year_month(day: u32, now: LocalInstant) -> (int, int) {
    if day <= now.day {
        if now.month == 12 {
            (now.year + 1, 1int)
        } else {
            (now.year as int, now.month + 1)
        }
    } else {
        (now.year as int, now.month as int)
    }
}

/// The next instant matching a monthly pattern, relative to `now`.
///
/// Meaningful when the pattern is valid, `now` is well formed and
/// `now.year < i32::MAX`.
pub open spec fn spec_next_occurrence(day: u32, hour: u32, minute: u32, now: LocalInstant) -> LocalInstant {
    let (year, month) = spec_target_year_month(day, now);
    let last_day = spec_days_in_month(year, month);
    let clamped = if day <= last_day {
        day as int
    } else {
        last_day
    };
    LocalInstant {
        year: year as i32,
        month: month as u32,
        day: clamped as u32,
        hour,
        minute,
        second: 0,
    }
}

/// A function that calculates the next date and time that a monthly report
/// should run at, relative to a caller-supplied current instant.
pub fn get_monthly_report_next_run_datetime_from(
    day: u32,
    hour: u32,
    minute: u32,
    now: &LocalInstant,
) -> (r: Result<LocalInstant, ScheduleError>)
    requires
        now.wf(),
        now.year < i32::MAX,
    ensures
        r is Ok <==> spec_valid_monthly_pattern(day, hour, minute),
        match r {
            Ok(v) => v == spec_next_occurrence(day, hour, minute, *now),
            Err(e) => e == ScheduleError::InvalidSchedule,
        },
{
    if day < 1 || day > 31 {
        return Err(ScheduleError::InvalidSchedule);
    }
    if hour > 23 {
        return Err(ScheduleError::InvalidSchedule);
    }
    if minute > 59 {
        return Err(ScheduleError::InvalidSchedule);
    }
    let (year, month): (i32, u32) = if day <= now.day {
        if now.month == 12 {
            (now.year + 1, 1)
        } else {
            (now.year, now.month + 1)
        }
    } else {
        (now.year, now.month)
    };
    let last_day: u32 = days_in_month(year, month);
    let clamped: u32 = if day <= last_day {
        day
    } else {
        last_day
    };
    Ok(LocalInstant { year, month, day: clamped, hour, minute, second: 0 })
}

/// A function that calculates the next date and time that a monthly report
/// should run at, reading the clock for the current instant.
pub fn get_monthly_report_next_run_datetime(
    day: u32,
    hour: u32,
    minute: u32,
) -> (r: Result<LocalInstant, ScheduleError>)
    ensures
        r is Ok <==> spec_valid_monthly_pattern(day, hour, minute),
        match r {
            Ok(v) => {
                &&& v.wf()
                &&& v.hour == hour
                &&& v.minute == minute
                &&& v.second == 0
                &&& exists|now: LocalInstant|
                    now.wf() && v == spec_next_occurrence(day, hour, minute, now)
            },
            Err(e) => e == ScheduleError::InvalidSchedule,
        },
{
    let now = local_now();
    let r = get_monthly_report_next_run_datetime_from(day, hour, minute, &now);
    proof {
        if spec_valid_monthly_pattern(day, hour, minute) {
            lemma_next_occurrence_matches_pattern(day, hour, minute, now);
            assert(now.wf() && r->Ok_0 == spec_next_occurrence(day, hour, minute, now));
        }
    }
    r
}

/// For every valid pattern and well-formed `now`, the computed occurrence
/// is a real calendar instant matching the requested hour and minute, with
/// second 0; its day is the requested day whenever that day exists in the
/// chosen month, and the month's last day otherwise.
pub proof fn lemma_next_occurrence_matches_pattern(day: u32, hour: u32, minute: u32, now: LocalInstant)
    requires
        spec_valid_monthly_pattern(day, hour, minute),
        now.wf(),
        now.year < i32::MAX,
    ensures
        ({
            let r = spec_next_occurrence(day, hour, minute, now);
            let last_day = spec_days_in_month(r.year as int, r.month as int);
            &&& r.wf()
            &&& r.hour == hour
            &&& r.minute == minute
            &&& r.second == 0
            &&& (day <= last_day ==> r.day == day)
            &&& (day > last_day ==> r.day == last_day)
        }),
{
}

/// The computed occurrence never lies before `now`, with one exception,
/// excluded here: when `now` is on the last day of its month, the pattern
/// names a later day (so it is clamped back onto today), and the pattern's
/// time of day has already passed.
pub proof fn lemma_next_occurrence_not_before_now(day: u32, hour: u32, minute: u32, now: LocalInstant)
    requires
        spec_valid_monthly_pattern(day, hour, minute),
        now.wf(),
        now.year < i32::MAX,
        !({
            &&& day > now.day
            &&& now.day == spec_days_in_month(now.year as int, now.month as int)
            &&& (hour < now.hour || (hour == now.hour && (minute < now.minute || (minute
                == now.minute && now.second > 0))))
        }),
    ensures
        now.spec_le(spec_next_occurrence(day, hour, minute, now)),
{
}

} // verus!
