//! Tests for the calendar arithmetic: month lengths, instant validation,
//! ordering, and the monthly next-occurrence computation.

use rusty_reporting_service::reporting::errors::ScheduleError;
use rusty_reporting_service::reporting::instants::{days_in_month, is_leap_year, LocalInstant};
use rusty_reporting_service::reporting::util::{
    get_monthly_report_next_run_datetime, get_monthly_report_next_run_datetime_from,
};
use chrono::Datelike;

fn at(year: i32, month: u32, day: u32, hour: u32, minute: u32, second: u32) -> LocalInstant {
    LocalInstant::new(year, month, day, hour, minute, second).unwrap()
}

#[test]
fn leap_years() {
    assert!(is_leap_year(2024));
    assert!(!is_leap_year(2023));
    assert!(!is_leap_year(1900));
    assert!(is_leap_year(2000));
}

#[test]
fn month_lengths() {
    assert_eq!(days_in_month(2024, 2), 29);
    assert_eq!(days_in_month(2023, 2), 28);
    assert_eq!(days_in_month(2023, 1), 31);
    assert_eq!(days_in_month(2023, 4), 30);
    assert_eq!(days_in_month(2023, 6), 30);
    assert_eq!(days_in_month(2023, 9), 30);
    assert_eq!(days_in_month(2023, 11), 30);
    assert_eq!(days_in_month(2023, 12), 31);
}

#[test]
fn month_lengths_agree_with_chrono() {
    for year in [1900, 1999, 2000, 2023, 2024] {
        for month in 1..=12u32 {
            let first_of_next = if month == 12 {
                chrono::NaiveDate::from_ymd_opt(year + 1, 1, 1)
            } else {
                chrono::NaiveDate::from_ymd_opt(year, month + 1, 1)
            };
            let last_day = first_of_next.unwrap().pred_opt().unwrap().day();
            assert_eq!(days_in_month(year, month), last_day);
        }
    }
}

#[test]
fn instant_validation() {
    assert!(LocalInstant::new(2024, 2, 29, 0, 0, 0).is_some());
    assert!(LocalInstant::new(2023, 2, 29, 0, 0, 0).is_none());
    assert!(LocalInstant::new(2023, 4, 31, 0, 0, 0).is_none());
    assert!(LocalInstant::new(2023, 13, 1, 0, 0, 0).is_none());
    assert!(LocalInstant::new(2023, 0, 1, 0, 0, 0).is_none());
    assert!(LocalInstant::new(2023, 1, 0, 0, 0, 0).is_none());
    assert!(LocalInstant::new(2023, 1, 1, 24, 0, 0).is_none());
    assert!(LocalInstant::new(2023, 1, 1, 23, 60, 0).is_none());
    assert!(LocalInstant::new(2023, 1, 1, 23, 59, 60).is_none());
    assert!(LocalInstant::new(2023, 1, 1, 23, 59, 59).is_some());
}

#[test]
fn instant_ordering() {
    let earlier = at(2024, 1, 15, 10, 0, 0);
    let later = at(2024, 2, 1, 9, 0, 0);
    assert!(earlier.is_before_or_at(&later));
    assert!(!later.is_before_or_at(&earlier));
    assert!(earlier.is_before_or_at(&earlier));
    let by_a_second = at(2024, 1, 15, 10, 0, 1);
    assert!(earlier.is_before_or_at(&by_a_second));
    assert!(!by_a_second.is_before_or_at(&earlier));
}

#[test]
fn next_run_mid_month_goes_to_next_month() {
    let now = at(2024, 1, 15, 10, 0, 0);
    let r = get_monthly_report_next_run_datetime_from(1, 9, 0, &now).unwrap();
    assert_eq!(r, at(2024, 2, 1, 9, 0, 0));
}

#[test]
fn next_run_wraps_the_year() {
    let now = at(2024, 12, 20, 0, 0, 0);
    let r = get_monthly_report_next_run_datetime_from(5, 0, 0, &now).unwrap();
    assert_eq!(r, at(2025, 1, 5, 0, 0, 0));
}

#[test]
fn next_run_later_this_month() {
    let now = at(2024, 3, 10, 22, 15, 30);
    let r = get_monthly_report_next_run_datetime_from(25, 6, 45, &now).unwrap();
    assert_eq!(r, at(2024, 3, 25, 6, 45, 0));
    assert!(now.is_before_or_at(&r));
}

#[test]
fn next_run_same_day_goes_to_next_month() {
    let now = at(2024, 3, 10, 0, 0, 0);
    let r = get_monthly_report_next_run_datetime_from(10, 23, 59, &now).unwrap();
    assert_eq!(r, at(2024, 4, 10, 23, 59, 0));
}

#[test]
fn next_run_clamps_day_31_in_a_30_day_month() {
    // The pattern asks for day 31 while April has 30 days: the occurrence
    // is clamped to April 30, the month's last day.
    let now = at(2024, 4, 3, 8, 30, 0);
    let r = get_monthly_report_next_run_datetime_from(31, 12, 0, &now).unwrap();
    assert_eq!(r, at(2024, 4, 30, 12, 0, 0));
}

#[test]
fn next_run_clamps_into_february() {
    let now = at(2023, 2, 1, 0, 0, 0);
    let r = get_monthly_report_next_run_datetime_from(30, 9, 0, &now).unwrap();
    assert_eq!(r, at(2023, 2, 28, 9, 0, 0));
    let leap_now = at(2024, 2, 1, 0, 0, 0);
    let leap_r = get_monthly_report_next_run_datetime_from(30, 9, 0, &leap_now).unwrap();
    assert_eq!(leap_r, at(2024, 2, 29, 9, 0, 0));
}

#[test]
fn next_run_boundary_values() {
    let now = at(2024, 1, 15, 10, 0, 0);
    let ok = get_monthly_report_next_run_datetime_from(1, 23, 59, &now).unwrap();
    assert_eq!(ok, at(2024, 2, 1, 23, 59, 0));
    assert_eq!(
        get_monthly_report_next_run_datetime_from(1, 24, 0, &now),
        Err(ScheduleError::InvalidSchedule)
    );
    assert_eq!(
        get_monthly_report_next_run_datetime_from(1, 23, 60, &now),
        Err(ScheduleError::InvalidSchedule)
    );
    assert_eq!(
        get_monthly_report_next_run_datetime_from(32, 0, 0, &now),
        Err(ScheduleError::InvalidSchedule)
    );
    assert_eq!(
        get_monthly_report_next_run_datetime_from(0, 0, 0, &now),
        Err(ScheduleError::InvalidSchedule)
    );
}

#[test]
fn next_run_from_the_clock() {
    // Reads the real clock: only the pattern-derived fields are fixed.
    let r = get_monthly_report_next_run_datetime(1, 9, 30).unwrap();
    assert_eq!(r.hour, 9);
    assert_eq!(r.minute, 30);
    assert_eq!(r.second, 0);
    assert_eq!(r.day, 1);
    assert!(1 <= r.month && r.month <= 12);
    assert_eq!(
        get_monthly_report_next_run_datetime(0, 9, 30),
        Err(ScheduleError::InvalidSchedule)
    );
}
