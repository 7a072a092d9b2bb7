//! The scheduler interface: registration, schedule assignment and the
//! next-run query, with their full contracts.
//!
//! The contracts are phrased over two sequences an implementor exposes as
//! spec functions: the registered reports and the stored schedules.  Each
//! operation must behave as the corresponding transition function of
//! [`crate::reporting::reporters`] says, so an implementor is pinned down
//! completely: which error comes back on which state, and how the state
//! changes on success.

use vstd::prelude::*;
use crate::reporting::errors::ScheduleError;
use crate::reporting::instants::LocalInstant;
use crate::reporting::reports::SQLQueryReport;
use crate::reporting::schedules::ReportSchedule;
use crate::reporting::reporters::{
    spec_next_instant, spec_register, spec_schedule_monthly, spec_schedule_once, spec_wf_state,
};

verus! {

/// A trait for a scheduler that reports from SQL query results.
pub trait SQLQueryReportScheduler: Sized {
    /// The registered reports, in registration order.
    spec fn spec_reports(&self) -> Seq<SQLQueryReport>;

    /// The stored schedules, of both kinds, in scheduling order.
    spec fn spec_schedules(&self) -> Seq<ReportSchedule>;

    /// Adds a report to the scheduler.
    ///
    /// Note: This does not actually schedule a report to be run.
    /// Use one of the `schedule` functions to schedule when to run a report.
    fn add_report(&mut self, report: SQLQueryReport) -> (r: Result<(), ScheduleError>)
        requires
            spec_wf_state(old(self).spec_reports(), old(self).spec_schedules()),
        ensures
            spec_wf_state(final(self).spec_reports(), final(self).spec_schedules()),
            final(self).spec_schedules() == old(self).spec_schedules(),
            ({
                let (new_reports, result) = spec_register(old(self).spec_reports(), report);
                &&& r == result
                &&& final(self).spec_reports() == new_reports
            }),
    ;

    /// Schedule a job represented by an ID, to run at a specified instant
    /// in time.  The instant is stored verbatim, even when it lies in the
    /// past, and is returned unchanged on success.
    fn schedule(&mut self, id: i32, run_at: LocalInstant) -> (r: Result<LocalInstant, ScheduleError>)
        requires
            spec_wf_state(old(self).spec_reports(), old(self).spec_schedules()),
            run_at.wf(),
        ensures
            spec_wf_state(final(self).spec_reports(), final(self).spec_schedules()),
            final(self).spec_reports() == old(self).spec_reports(),
            ({
                let (new_schedules, result) = spec_schedule_once(
                    old(self).spec_reports(),
                    old(self).spec_schedules(),
                    id,
                    run_at,
                );
                &&& r == result
                &&& final(self).spec_schedules() == new_schedules
            }),
    ;

    /// Schedule a job represented by an ID, to be run repeatedly each
    /// month, at the specified day, hour and minute, relative to the
    /// caller-supplied current instant.  If the day is 31, it will
    /// automatically adjust for day 30 in 30 day months or day 28 (or 29)
    /// in February; day 30 will also auto-adjust to run in the last day of
    /// February.
    ///
    /// Returns the next instant in time when the job will be run.
    fn schedule_monthly(
        &mut self,
        id: i32,
        day: u32,
        hour: u32,
        minute: u32,
        now: &LocalInstant,
    ) -> (r: Result<LocalInstant, ScheduleError>)
        requires
            spec_wf_state(old(self).spec_reports(), old(self).spec_schedules()),
            now.wf(),
            now.year < i32::MAX,
        ensures
            spec_wf_state(final(self).spec_reports(), final(self).spec_schedules()),
            final(self).spec_reports() == old(self).spec_reports(),
            ({
                let (new_schedules, result) = spec_schedule_monthly(
                    old(self).spec_reports(),
                    old(self).spec_schedules(),
                    id,
                    day,
                    hour,
                    minute,
                    *now,
                );
                &&& r == result
                &&& final(self).spec_schedules() == new_schedules
            }),
    ;

    /// Returns the next instant in time when the specified job will be
    /// run: a one-time schedule's stored instant verbatim, or a monthly
    /// schedule's next occurrence, freshly recomputed relative to `now`.
    fn get_next_instant(&self, id: i32, now: &LocalInstant) -> (r: Result<
        LocalInstant,
        ScheduleError,
    >)
        requires
            spec_wf_state(self.spec_reports(), self.spec_schedules()),
            now.wf(),
            now.year < i32::MAX,
        ensures
            r == spec_next_instant(self.spec_reports(), self.spec_schedules(), id, *now),
    ;
}

} // verus!
