//! Tests for the scheduler: registration, one-time and monthly schedules,
//! the error conditions, and the next-run query.

use rusty_reporting_service::reporting::errors::ScheduleError;
use rusty_reporting_service::reporting::instants::LocalInstant;
use rusty_reporting_service::reporting::reporters::SQLQueryReporter;
use rusty_reporting_service::reporting::reports::SQLQueryReport;
use rusty_reporting_service::reporting::schedulers::SQLQueryReportScheduler;

fn at(year: i32, month: u32, day: u32, hour: u32, minute: u32, second: u32) -> LocalInstant {
    LocalInstant::new(year, month, day, hour, minute, second).unwrap()
}

fn report(id: i32, name: &str) -> SQLQueryReport {
    SQLQueryReport {
        id,
        friendly_name: name.to_string(),
        active: true,
        sql_query: "select 1;".to_string(),
        include_sql_headers: true,
        file_save_path: "reports".to_string(),
    }
}

#[test]
fn registration_accepts_new_ids() {
    let mut scheduler = SQLQueryReporter::new();
    assert_eq!(scheduler.report_count(), 0);
    assert_eq!(scheduler.add_report(report(1, "first")), Ok(()));
    assert_eq!(scheduler.add_report(report(2, "second")), Ok(()));
    assert_eq!(scheduler.report_count(), 2);
}

#[test]
fn duplicate_registration_fails_and_changes_nothing() {
    let mut scheduler = SQLQueryReporter::new();
    assert_eq!(scheduler.add_report(report(1, "first")), Ok(()));
    assert_eq!(scheduler.report_count(), 1);
    assert_eq!(
        scheduler.add_report(report(1, "impostor")),
        Err(ScheduleError::DuplicateId)
    );
    assert_eq!(scheduler.report_count(), 1);
}

#[test]
fn scheduling_unknown_id_fails_both_ways() {
    let now = at(2024, 1, 15, 10, 0, 0);
    let mut scheduler = SQLQueryReporter::new();
    assert_eq!(
        scheduler.schedule(9, at(2024, 6, 1, 12, 0, 0)),
        Err(ScheduleError::UnknownReport)
    );
    assert_eq!(
        scheduler.schedule_monthly(9, 1, 9, 0, &now),
        Err(ScheduleError::UnknownReport)
    );
    assert_eq!(scheduler.schedule_count(), 0);
}

#[test]
fn second_schedule_of_same_kind_fails() {
    let now = at(2024, 1, 15, 10, 0, 0);
    let mut scheduler = SQLQueryReporter::new();
    scheduler.add_report(report(1, "once")).unwrap();
    scheduler.add_report(report(2, "monthly")).unwrap();
    scheduler.schedule(1, at(2024, 6, 1, 12, 0, 0)).unwrap();
    assert_eq!(
        scheduler.schedule(1, at(2024, 7, 1, 12, 0, 0)),
        Err(ScheduleError::AlreadyScheduled)
    );
    scheduler.schedule_monthly(2, 5, 8, 30, &now).unwrap();
    assert_eq!(
        scheduler.schedule_monthly(2, 6, 9, 45, &now),
        Err(ScheduleError::AlreadyScheduled)
    );
    assert_eq!(scheduler.schedule_count(), 2);
}

#[test]
fn second_schedule_of_other_kind_fails_too() {
    let now = at(2024, 1, 15, 10, 0, 0);
    let mut scheduler = SQLQueryReporter::new();
    scheduler.add_report(report(1, "once")).unwrap();
    scheduler.add_report(report(2, "monthly")).unwrap();
    scheduler.schedule(1, at(2024, 6, 1, 12, 0, 0)).unwrap();
    assert_eq!(
        scheduler.schedule_monthly(1, 5, 8, 30, &now),
        Err(ScheduleError::AlreadyScheduled)
    );
    scheduler.schedule_monthly(2, 5, 8, 30, &now).unwrap();
    assert_eq!(
        scheduler.schedule(2, at(2024, 6, 1, 12, 0, 0)),
        Err(ScheduleError::AlreadyScheduled)
    );
}

#[test]
fn monthly_schedule_validates_before_looking_up() {
    let now = at(2024, 1, 15, 10, 0, 0);
    let mut scheduler = SQLQueryReporter::new();
    // The pattern is checked first, so even an unknown id reports the
    // invalid pattern.
    assert_eq!(
        scheduler.schedule_monthly(9, 32, 0, 0, &now),
        Err(ScheduleError::InvalidSchedule)
    );
    scheduler.add_report(report(1, "monthly")).unwrap();
    assert_eq!(
        scheduler.schedule_monthly(1, 1, 24, 0, &now),
        Err(ScheduleError::InvalidSchedule)
    );
    assert_eq!(
        scheduler.schedule_monthly(1, 1, 23, 60, &now),
        Err(ScheduleError::InvalidSchedule)
    );
    assert_eq!(scheduler.schedule_count(), 0);
}

#[test]
fn monthly_schedule_returns_next_occurrence() {
    let now = at(2024, 1, 15, 10, 0, 0);
    let mut scheduler = SQLQueryReporter::new();
    scheduler.add_report(report(1, "monthly")).unwrap();
    assert_eq!(
        scheduler.schedule_monthly(1, 1, 9, 0, &now),
        Ok(at(2024, 2, 1, 9, 0, 0))
    );
}

#[test]
fn monthly_schedule_wraps_the_year() {
    let now = at(2024, 12, 20, 0, 0, 0);
    let mut scheduler = SQLQueryReporter::new();
    scheduler.add_report(report(1, "monthly")).unwrap();
    assert_eq!(
        scheduler.schedule_monthly(1, 5, 0, 0, &now),
        Ok(at(2025, 1, 5, 0, 0, 0))
    );
}

#[test]
fn query_before_any_schedule_reports_not_scheduled() {
    let now = at(2024, 1, 15, 10, 0, 0);
    let mut scheduler = SQLQueryReporter::new();
    assert_eq!(
        scheduler.get_next_instant(1, &now),
        Err(ScheduleError::UnknownReport)
    );
    scheduler.add_report(report(1, "idle")).unwrap();
    assert_eq!(
        scheduler.get_next_instant(1, &now),
        Err(ScheduleError::NotScheduled)
    );
}

#[test]
fn one_time_instant_is_stored_verbatim_even_in_the_past() {
    let now = at(2024, 1, 15, 10, 0, 0);
    let past = at(1999, 12, 31, 23, 59, 59);
    let mut scheduler = SQLQueryReporter::new();
    scheduler.add_report(report(1, "late")).unwrap();
    assert_eq!(scheduler.schedule(1, past), Ok(past));
    assert_eq!(scheduler.get_next_instant(1, &now), Ok(past));
}

#[test]
fn monthly_query_recomputes_relative_to_now() {
    let mut scheduler = SQLQueryReporter::new();
    scheduler.add_report(report(1, "monthly")).unwrap();
    let scheduled_now = at(2024, 1, 15, 10, 0, 0);
    scheduler.schedule_monthly(1, 1, 9, 0, &scheduled_now).unwrap();
    assert_eq!(
        scheduler.get_next_instant(1, &scheduled_now),
        Ok(at(2024, 2, 1, 9, 0, 0))
    );
    // Months later, the same schedule answers with a fresh occurrence.
    let later = at(2024, 5, 20, 12, 0, 0);
    assert_eq!(
        scheduler.get_next_instant(1, &later),
        Ok(at(2024, 6, 1, 9, 0, 0))
    );
}

#[test]
fn query_is_idempotent_while_the_clock_stands_still() {
    let now = at(2024, 1, 15, 10, 0, 0);
    let mut scheduler = SQLQueryReporter::new();
    scheduler.add_report(report(1, "monthly")).unwrap();
    scheduler.schedule_monthly(1, 1, 9, 0, &now).unwrap();
    let first = scheduler.get_next_instant(1, &now);
    let second = scheduler.get_next_instant(1, &now);
    assert_eq!(first, second);
}

#[test]
fn one_time_query_picks_the_one_time_schedule() {
    let now = at(2024, 1, 15, 10, 0, 0);
    let mut scheduler = SQLQueryReporter::new();
    scheduler.add_report(report(1, "once")).unwrap();
    let when = at(2024, 3, 3, 3, 33, 0);
    scheduler.schedule(1, when).unwrap();
    assert_eq!(scheduler.get_next_instant(1, &now), Ok(when));
}

#[test]
fn clock_reading_variants_work_end_to_end() {
    let mut scheduler = SQLQueryReporter::new();
    scheduler.add_report(report(1, "monthly")).unwrap();
    let scheduled = scheduler.schedule_monthly_now(1, 1, 9, 30).unwrap();
    assert_eq!(scheduled.day, 1);
    assert_eq!(scheduled.hour, 9);
    assert_eq!(scheduled.minute, 30);
    assert_eq!(scheduled.second, 0);
    let next = scheduler.get_next_instant_now(1).unwrap();
    assert_eq!(next.day, 1);
    assert_eq!(next.hour, 9);
    assert_eq!(next.minute, 30);
    assert_eq!(
        scheduler.get_next_instant_now(2),
        Err(ScheduleError::UnknownReport)
    );
    assert_eq!(
        scheduler.schedule_monthly_now(1, 2, 10, 0),
        Err(ScheduleError::AlreadyScheduled)
    );
    assert_eq!(
        scheduler.schedule_monthly_now(9, 2, 10, 0),
        Err(ScheduleError::UnknownReport)
    );
    assert_eq!(
        scheduler.schedule_monthly_now(9, 32, 10, 0),
        Err(ScheduleError::InvalidSchedule)
    );
}
