//! The scheduler over SQL-query reports: a registry of reports and a single
//! store of their schedules, with the registration, scheduling and query
//! operations.
//!
//! The behaviour of every operation is stated once, as a function over the
//! registry and schedule sequences (`spec_register` and friends); the
//! executable methods are proved to follow those functions, and the laws at
//! the end of the file are proved from them.

use vstd::prelude::*;
use crate::reporting::errors::ScheduleError;
use crate::reporting::instants::{local_now, LocalInstant};
use crate::reporting::reports::SQLQueryReport;
use crate::reporting::schedulers::SQLQueryReportScheduler;
use crate::reporting::schedules::{MonthlyReportSchedule, OneTimeReportSchedule, ReportSchedule};
use crate::reporting::util::{
    get_monthly_report_next_run_datetime_from, spec_next_occurrence, spec_valid_monthly_pattern,
};

verus! {

/// Whether a report with the given identifier is registered.
pub open spec fn spec_has_report(reports: Seq<SQLQueryReport>, id: i32) -> bool {
    exists|i: int| 0 <= i < reports.len() && reports[i].id == id
}

/// The first schedule stored for the given identifier, if any.
pub open spec fn spec_first_schedule(schedules: Seq<ReportSchedule>, id: i32) -> Option<
    ReportSchedule,
>
    decreases schedules.len(),
{
    if schedules.len() == 0 {
        None
    } else if schedules[0].spec_report_id() == id {
        Some(schedules[0])
    } else {
        spec_first_schedule(schedules.drop_first(), id)
    }
}

/// A well-formed scheduler state: report identifiers are unique, each
/// report has at most one schedule of either kind, every schedule belongs
/// to a registered report, and every stored schedule is itself valid.
pub open spec fn spec_wf_state(reports: Seq<SQLQueryReport>, schedules: Seq<ReportSchedule>) -> bool {
    &&& forall|i: int, j: int|
        0 <= i < j < reports.len() ==> (#[trigger] reports[i]).id != (#[trigger] reports[j]).id
    &&& forall|i: int, j: int|
        0 <= i < j < schedules.len() ==> (#[trigger] schedules[i]).spec_report_id() != (
        #[trigger] schedules[j]).spec_report_id()
    &&& forall|i: int|
        0 <= i < schedules.len() ==> spec_has_report(
            reports,
            (#[trigger] schedules[i]).spec_report_id(),
        )
    &&& forall|i: int| 0 <= i < schedules.len() ==> (#[trigger] schedules[i]).wf()
}

/// What registering a report does: refused with `DuplicateId` when the
/// identifier is already present, otherwise appended to the registry.
pub open spec fn spec_register(reports: Seq<SQLQueryReport>, report: SQLQueryReport) -> (
    Seq<SQLQueryReport>,
    Result<(), ScheduleError>,
) {
    if spec_has_report(reports, report.id) {
        (reports, Err(ScheduleError::DuplicateId))
    } else {
        (reports.push(report), Ok(()))
    }
}

/// What scheduling a one-time run does: `UnknownReport` for an unregistered
/// identifier, `AlreadyScheduled` when any schedule for it exists, and
/// otherwise the instant is stored verbatim and returned.
pub open spec fn spec_schedule_once(
    reports: Seq<SQLQueryReport>,
    schedules: Seq<ReportSchedule>,
    id: i32,
    run_at: LocalInstant,
) -> (Seq<ReportSchedule>, Result<LocalInstant, ScheduleError>) {
    if !spec_has_report(reports, id) {
        (schedules, Err(ScheduleError::UnknownReport))
    } else if spec_first_schedule(schedules, id) is Some {
        (schedules, Err(ScheduleError::AlreadyScheduled))
    } else {
        (
            schedules.push(ReportSchedule::OneTime(OneTimeReportSchedule { id, when: run_at })),
            Ok(run_at),
        )
    }
}

/// What scheduling a monthly pattern does: the pattern is validated before
/// anything is looked up (`InvalidSchedule`), then as for a one-time
/// schedule; on success the pattern is stored and the next occurrence
/// relative to `now` is returned.
pub open spec fn spec_schedule_monthly(
    reports: Seq<SQLQueryReport>,
    schedules: Seq<ReportSchedule>,
    id: i32,
    day: u32,
    hour: u32,
    minute: u32,
    now: LocalInstant,
) -> (Seq<ReportSchedule>, Result<LocalInstant, ScheduleError>) {
    if !spec_valid_monthly_pattern(day, hour, minute) {
        (schedules, Err(ScheduleError::InvalidSchedule))
    } else if !spec_has_report(reports, id) {
        (schedules, Err(ScheduleError::UnknownReport))
    } else if spec_first_schedule(schedules, id) is Some {
        (schedules, Err(ScheduleError::AlreadyScheduled))
    } else {
        (
            schedules.push(
                ReportSchedule::Monthly(MonthlyReportSchedule { id, day, hour, minute }),
            ),
            Ok(spec_next_occurrence(day, hour, minute, now)),
        )
    }
}

/// What querying the next run does: `UnknownReport` for an unregistered
/// identifier; a one-time schedule answers with its stored instant
/// verbatim; a monthly schedule answers with its next occurrence, freshly
/// computed relative to `now`; `NotScheduled` when no schedule exists.
pub open spec fn spec_next_instant(
    reports: Seq<SQLQueryReport>,
    schedules: Seq<ReportSchedule>,
    id: i32,
    now: LocalInstant,
) -> Result<LocalInstant, ScheduleError> {
    if !spec_has_report(reports, id) {
        Err(ScheduleError::UnknownReport)
    } else {
        match spec_first_schedule(schedules, id) {
            Some(ReportSchedule::OneTime(s)) => Ok(s.when),
            Some(ReportSchedule::Monthly(s)) => Ok(
                spec_next_occurrence(s.day, s.hour, s.minute, now),
            ),
            None => Err(ScheduleError::NotScheduled),
        }
    }
}

/// Appending a report makes exactly its identifier newly registered.
pub proof fn lemma_has_report_push(reports: Seq<SQLQueryReport>, report: SQLQueryReport, id: i32)
    ensures
        spec_has_report(reports.push(report), id) == (spec_has_report(reports, id) || report.id
            == id),
{
    if spec_has_report(reports, id) {
        let i = choose|i: int| 0 <= i < reports.len() && reports[i].id == id;
        assert(reports.push(report)[i].id == id);
    }
    if report.id == id {
        assert(reports.push(report)[reports.len() as int].id == id);
    }
    if spec_has_report(reports.push(report), id) && report.id != id {
        let i = choose|i: int| 0 <= i < reports.push(report).len() && reports.push(report)[i].id
            == id;
        assert(reports[i].id == id);
    }
}

/// When the first `i` entries do not match and entry `i` does, the first
/// schedule for `id` is entry `i`.
pub proof fn lemma_first_schedule_at_index(schedules: Seq<ReportSchedule>, id: i32, i: int)
    requires
        0 <= i < schedules.len(),
        schedules[i].spec_report_id() == id,
        forall|j: int| 0 <= j < i ==> (#[trigger] schedules[j]).spec_report_id() != id,
    ensures
        spec_first_schedule(schedules, id) == Some(schedules[i]),
    decreases i,
{
    if i > 0 {
        lemma_first_schedule_at_index(schedules.drop_first(), id, i - 1);
    }
}

/// When no entry matches, there is no first schedule.
pub proof fn lemma_first_schedule_none(schedules: Seq<ReportSchedule>, id: i32)
    requires
        forall|j: int|
            0 <= j < schedules.len() ==> (#[trigger] schedules[j]).spec_report_id() != id,
    ensures
        spec_first_schedule(schedules, id) is None,
    decreases schedules.len(),
{
    if schedules.len() > 0 {
        lemma_first_schedule_none(schedules.drop_first(), id);
    }
}

/// When there is no first schedule, no entry matches at all.
pub proof fn lemma_first_schedule_none_all(schedules: Seq<ReportSchedule>, id: i32)
    requires
        spec_first_schedule(schedules, id) is None,
    ensures
        forall|j: int|
            0 <= j < schedules.len() ==> (#[trigger] schedules[j]).spec_report_id() != id,
    decreases schedules.len(),
{
    if schedules.len() > 0 {
        lemma_first_schedule_none_all(schedules.drop_first(), id);
        assert forall|j: int|
            0 <= j < schedules.len() implies (#[trigger] schedules[j]).spec_report_id() != id by {
            if j > 0 {
                assert(schedules.drop_first()[j - 1] == schedules[j]);
            }
        }
    }
}

/// A found first schedule is one of the entries, and it matches `id`.
pub proof fn lemma_first_schedule_found(schedules: Seq<ReportSchedule>, id: i32)
    requires
        spec_first_schedule(schedules, id) is Some,
    ensures
        ({
            let f = spec_first_schedule(schedules, id)->Some_0;
            &&& f.spec_report_id() == id
            &&& exists|i: int| 0 <= i < schedules.len() && schedules[i] == f
        }),
    decreases schedules.len(),
{
    if schedules.len() > 0 {
        if schedules[0].spec_report_id() == id {
            assert(schedules[0] == schedules[0]);
        } else {
            lemma_first_schedule_found(schedules.drop_first(), id);
            let f = spec_first_schedule(schedules, id)->Some_0;
            let i = choose|i: int|
                0 <= i < schedules.drop_first().len() && schedules.drop_first()[i] == f;
            assert(schedules[i + 1] == f);
        }
    }
}

/// Appending an entry leaves an existing first schedule in place; when
/// there was none, the appended entry is found exactly when it matches.
pub proof fn lemma_first_schedule_push(schedules: Seq<ReportSchedule>, x: ReportSchedule, id: i32)
    ensures
        spec_first_schedule(schedules.push(x), id) == (match spec_first_schedule(schedules, id) {
            Some(f) => Some(f),
            None => if x.spec_report_id() == id {
                Some(x)
            } else {
                None
            },
        }),
    decreases schedules.len(),
{
    if schedules.len() == 0 {
        assert(schedules.push(x)[0] == x);
    } else {
        assert(schedules.push(x).drop_first() =~= schedules.drop_first().push(x));
        lemma_first_schedule_push(schedules.drop_first(), x, id);
    }
}

/// An implementation of the [`SQLQueryReportScheduler`] trait for
/// scheduling reports generated from SQL query results.
pub struct SQLQueryReporter {
    /// Reports that are managed by this reporter.
    reports: Vec<SQLQueryReport>,
    /// The schedules of those reports, one-time and monthly alike, at most
    /// one per report.
    schedules: Vec<ReportSchedule>,
}

impl SQLQueryReporter {
    /// An empty scheduler: nothing registered, nothing scheduled.
    pub fn new() -> (r: SQLQueryReporter)
        ensures
            r.spec_reports().len() == 0,
            r.spec_schedules().len() == 0,
            spec_wf_state(r.spec_reports(), r.spec_schedules()),
    {
        SQLQueryReporter { reports: Vec::new(), schedules: Vec::new() }
    }

    /// How many reports are registered.
    pub fn report_count(&self) -> (n: usize)
        ensures
            n == self.spec_reports().len(),
    {
        self.reports.len()
    }

    /// How many schedules are stored, of both kinds together.
    pub fn schedule_count(&self) -> (n: usize)
        ensures
            n == self.spec_schedules().len(),
    {
        self.schedules.len()
    }

    /// Whether a report with this identifier is registered.
    fn has_report(&self, id: i32) -> (found: bool)
        ensures
            found == spec_has_report(self.spec_reports(), id),
    {
        let n = self.reports.len();
        let mut i: usize = 0;
        while i < n
            invariant
                n == self.reports@.len(),
                i <= n,
                forall|j: int| 0 <= j < i ==> (#[trigger] self.reports@[j]).id != id,
            decreases n - i,
        {
            if self.reports[i].id == id {
                return true;
            }
            i += 1;
        }
        proof {
            if spec_has_report(self.spec_reports(), id) {
                let w = choose|w: int|
                    0 <= w < self.reports@.len() && self.reports@[w].id == id;
                assert(self.reports@[w].id != id);
            }
        }
        false
    }

    /// The first schedule stored for this identifier, if any.
    fn find_schedule(&self, id: i32) -> (r: Option<ReportSchedule>)
        ensures
            r == spec_first_schedule(self.spec_schedules(), id),
    {
        let n = self.schedules.len();
        let mut i: usize = 0;
        while i < n
            invariant
                n == self.schedules@.len(),
                i <= n,
                forall|j: int|
                    0 <= j < i ==> (#[trigger] self.schedules@[j]).spec_report_id() != id,
            decreases n - i,
        {
            let s = self.schedules[i];
            if s.report_id() == id {
                proof {
                    lemma_first_schedule_at_index(self.schedules@, id, i as int);
                }
                return Some(s);
            }
            i += 1;
        }
        proof {
            lemma_first_schedule_none(self.schedules@, id);
        }
        None
    }

    /// Like [`SQLQueryReportScheduler::schedule_monthly`], reading the
    /// clock for the current instant.  Which instant the clock supplies is
    /// unknowable in advance, so the contract promises the transition for
    /// some well-formed current instant; which error comes back, and
    /// whether the call succeeds, does not depend on it.
    pub fn schedule_monthly_now(&mut self, id: i32, day: u32, hour: u32, minute: u32) -> (r:
        Result<LocalInstant, ScheduleError>)
        requires
            spec_wf_state(old(self).spec_reports(), old(self).spec_schedules()),
        ensures
            spec_wf_state(final(self).spec_reports(), final(self).spec_schedules()),
            final(self).spec_reports() == old(self).spec_reports(),
            exists|now: LocalInstant|
                {
                    let (new_schedules, result) = spec_schedule_monthly(
                        old(self).spec_reports(),
                        old(self).spec_schedules(),
                        id,
                        day,
                        hour,
                        minute,
                        now,
                    );
                    &&& #[trigger] now.wf()
                    &&& r == result
                    &&& final(self).spec_schedules() == new_schedules
                },
    {
        let now = local_now();
        self.schedule_monthly(id, day, hour, minute, &now)
    }

    /// Like [`SQLQueryReportScheduler::get_next_instant`], reading the
    /// clock for the current instant: a one-time answer does not depend on
    /// it, a monthly answer is the next occurrence relative to it.
    pub fn get_next_instant_now(&self, id: i32) -> (r: Result<LocalInstant, ScheduleError>)
        requires
            spec_wf_state(self.spec_reports(), self.spec_schedules()),
        ensures
            exists|now: LocalInstant|
                #[trigger] now.wf() && r == spec_next_instant(
                    self.spec_reports(),
                    self.spec_schedules(),
                    id,
                    now,
                ),
    {
        let now = local_now();
        self.get_next_instant(id, &now)
    }
}

impl SQLQueryReportScheduler for SQLQueryReporter {
    closed spec fn spec_reports(&self) -> Seq<SQLQueryReport> {
        self.reports@
    }

    closed spec fn spec_schedules(&self) -> Seq<ReportSchedule> {
        self.schedules@
    }

    fn add_report(&mut self, report: SQLQueryReport) -> (r: Result<(), ScheduleError>) {
        let id = report.id;
        if self.has_report(id) {
            return Err(ScheduleError::DuplicateId);
        }
        proof {
            assert forall|id2: i32|
                spec_has_report(self.reports@, id2) implies spec_has_report(
                self.reports@.push(report),
                id2,
            ) by {
                lemma_has_report_push(self.reports@, report, id2);
            }
        }
        self.reports.push(report);
        Ok(())
    }

    fn schedule(&mut self, id: i32, run_at: LocalInstant) -> (r: Result<LocalInstant, ScheduleError>) {
        if !self.has_report(id) {
            return Err(ScheduleError::UnknownReport);
        }
        if self.find_schedule(id).is_some() {
            return Err(ScheduleError::AlreadyScheduled);
        }
        let entry = ReportSchedule::OneTime(OneTimeReportSchedule { id, when: run_at });
        proof {
            lemma_first_schedule_none_all(self.schedules@, id);
        }
        self.schedules.push(entry);
        Ok(run_at)
    }

    fn schedule_monthly(
        &mut self,
        id: i32,
        day: u32,
        hour: u32,
        minute: u32,
        now: &LocalInstant,
    ) -> (r: Result<LocalInstant, ScheduleError>) {
        let scheduled_at = match get_monthly_report_next_run_datetime_from(day, hour, minute, now) {
            Ok(v) => v,
            Err(e) => {
                return Err(e);
            },
        };
        if !self.has_report(id) {
            return Err(ScheduleError::UnknownReport);
        }
        if self.find_schedule(id).is_some() {
            return Err(ScheduleError::AlreadyScheduled);
        }
        let entry = ReportSchedule::Monthly(MonthlyReportSchedule { id, day, hour, minute });
        proof {
            lemma_first_schedule_none_all(self.schedules@, id);
        }
        self.schedules.push(entry);
        Ok(scheduled_at)
    }

    fn get_next_instant(&self, id: i32, now: &LocalInstant) -> (r: Result<
        LocalInstant,
        ScheduleError,
    >) {
        if !self.has_report(id) {
            return Err(ScheduleError::UnknownReport);
        }
        match self.find_schedule(id) {
            Some(ReportSchedule::OneTime(s)) => Ok(s.when),
            Some(ReportSchedule::Monthly(s)) => {
                proof {
                    lemma_first_schedule_found(self.schedules@, id);
                    let f = spec_first_schedule(self.schedules@, id)->Some_0;
                    let w = choose|w: int|
                        0 <= w < self.schedules@.len() && self.schedules@[w] == f;
                    assert(self.schedules@[w].wf());
                }
                get_monthly_report_next_run_datetime_from(s.day, s.hour, s.minute, now)
            },
            None => Err(ScheduleError::NotScheduled),
        }
    }
}

/// Asking for the next instant twice in immediate succession — same
/// registry, same schedules, same current instant — yields the same
/// answer: the query is a function of state and clock alone.
pub proof fn lemma_next_instant_idempotent(
    reports: Seq<SQLQueryReport>,
    schedules: Seq<ReportSchedule>,
    id: i32,
    now: LocalInstant,
    r1: Result<LocalInstant, ScheduleError>,
    r2: Result<LocalInstant, ScheduleError>,
)
    requires
        r1 == spec_next_instant(reports, schedules, id, now),
        r2 == spec_next_instant(reports, schedules, id, now),
    ensures
        r1 == r2,
{
}

/// Registering the same identifier twice: the second registration fails
/// with `DuplicateId` and leaves the registry unchanged, its size
/// included — whether or not the first registration succeeded.
pub proof fn lemma_duplicate_registration_rejected(
    reports: Seq<SQLQueryReport>,
    first: SQLQueryReport,
    second: SQLQueryReport,
)
    requires
        second.id == first.id,
    ensures
        ({
            let (after_first, _) = spec_register(reports, first);
            let (after_second, r2) = spec_register(after_first, second);
            &&& r2 == Err::<(), ScheduleError>(ScheduleError::DuplicateId)
            &&& after_second == after_first
            &&& after_second.len() == after_first.len()
        }),
{
    let (after_first, _) = spec_register(reports, first);
    lemma_has_report_push(reports, first, second.id);
    assert(spec_has_report(after_first, second.id));
}

/// Scheduling an unregistered identifier fails with `UnknownReport`, for
/// the one-time and the monthly variant alike, and changes nothing.  (The
/// monthly variant reports an invalid pattern before looking at the
/// registry, so the pattern is assumed valid here.)
pub proof fn lemma_unknown_report_rejected(
    reports: Seq<SQLQueryReport>,
    schedules: Seq<ReportSchedule>,
    id: i32,
    run_at: LocalInstant,
    day: u32,
    hour: u32,
    minute: u32,
    now: LocalInstant,
)
    requires
        !spec_has_report(reports, id),
        spec_valid_monthly_pattern(day, hour, minute),
    ensures
        spec_schedule_once(reports, schedules, id, run_at).1 == Err::<
            LocalInstant,
            ScheduleError,
        >(ScheduleError::UnknownReport),
        spec_schedule_once(reports, schedules, id, run_at).0 == schedules,
        spec_schedule_monthly(reports, schedules, id, day, hour, minute, now).1 == Err::<
            LocalInstant,
            ScheduleError,
        >(ScheduleError::UnknownReport),
        spec_schedule_monthly(reports, schedules, id, day, hour, minute, now).0 == schedules,
{
}

/// Scheduling the same identifier twice, one-time both times: the second
/// attempt fails with `AlreadyScheduled` and leaves the store unchanged.
pub proof fn lemma_second_one_time_schedule_rejected(
    reports: Seq<SQLQueryReport>,
    schedules: Seq<ReportSchedule>,
    id: i32,
    first_at: LocalInstant,
    second_at: LocalInstant,
)
    requires
        spec_schedule_once(reports, schedules, id, first_at).1 is Ok,
    ensures
        ({
            let after_first = spec_schedule_once(reports, schedules, id, first_at).0;
            let (after_second, r2) = spec_schedule_once(reports, after_first, id, second_at);
            &&& r2 == Err::<LocalInstant, ScheduleError>(ScheduleError::AlreadyScheduled)
            &&& after_second == after_first
        }),
{
    let entry = ReportSchedule::OneTime(OneTimeReportSchedule { id, when: first_at });
    lemma_first_schedule_push(schedules, entry, id);
}

/// Scheduling the same identifier twice, monthly both times: the second
/// attempt fails with `AlreadyScheduled` and leaves the store unchanged.
pub proof fn lemma_second_monthly_schedule_rejected(
    reports: Seq<SQLQueryReport>,
    schedules: Seq<ReportSchedule>,
    id: i32,
    day1: u32,
    hour1: u32,
    minute1: u32,
    now1: LocalInstant,
    day2: u32,
    hour2: u32,
    minute2: u32,
    now2: LocalInstant,
)
    requires
        spec_schedule_monthly(reports, schedules, id, day1, hour1, minute1, now1).1 is Ok,
        spec_valid_monthly_pattern(day2, hour2, minute2),
    ensures
        ({
            let after_first = spec_schedule_monthly(
                reports,
                schedules,
                id,
                day1,
                hour1,
                minute1,
                now1,
            ).0;
            let (after_second, r2) = spec_schedule_monthly(
                reports,
                after_first,
                id,
                day2,
                hour2,
                minute2,
                now2,
            );
            &&& r2 == Err::<LocalInstant, ScheduleError>(ScheduleError::AlreadyScheduled)
            &&& after_second == after_first
        }),
{
    let entry = ReportSchedule::Monthly(
        MonthlyReportSchedule { id, day: day1, hour: hour1, minute: minute1 },
    );
    lemma_first_schedule_push(schedules, entry, id);
}

/// At the query itself: a report with a monthly schedule is answered with
/// an instant no earlier than `now`, except in the clamped-day corner
/// excluded here (see
/// [`crate::reporting::util::lemma_next_occurrence_not_before_now`]).
pub proof fn lemma_next_instant_monthly_not_before_now(
    reports: Seq<SQLQueryReport>,
    schedules: Seq<ReportSchedule>,
    id: i32,
    now: LocalInstant,
)
    requires
        spec_wf_state(reports, schedules),
        now.wf(),
        now.year < i32::MAX,
        spec_first_schedule(schedules, id) is Some,
        spec_first_schedule(schedules, id)->Some_0 is Monthly,
        ({
            let m = spec_first_schedule(schedules, id)->Some_0->Monthly_0;
            !({
                &&& m.day > now.day
                &&& now.day == crate::reporting::instants::spec_days_in_month(
                    now.year as int,
                    now.month as int,
                )
                &&& (m.hour < now.hour || (m.hour == now.hour && (m.minute < now.minute || (
                m.minute == now.minute && now.second > 0))))
            })
        }),
    ensures
        ({
            let m = spec_first_schedule(schedules, id)->Some_0->Monthly_0;
            let r = spec_next_instant(reports, schedules, id, now);
            &&& r == Ok::<LocalInstant, ScheduleError>(
                spec_next_occurrence(m.day, m.hour, m.minute, now),
            )
            &&& now.spec_le(r->Ok_0)
        }),
{
    lemma_first_schedule_found(schedules, id);
    let f = spec_first_schedule(schedules, id)->Some_0;
    let w = choose|w: int| 0 <= w < schedules.len() && schedules[w] == f;
    assert(schedules[w].wf());
    assert(spec_has_report(reports, schedules[w].spec_report_id()));
    let m = f->Monthly_0;
    crate::reporting::util::lemma_next_occurrence_not_before_now(m.day, m.hour, m.minute, now);
}

/// More than that: a report never carries one schedule of each kind.  A
/// successful one-time schedule blocks a later monthly one, and a
/// successful monthly schedule blocks a later one-time one, each failing
/// with `AlreadyScheduled` and changing nothing.
pub proof fn lemma_schedule_kinds_mutually_exclusive(
    reports: Seq<SQLQueryReport>,
    schedules: Seq<ReportSchedule>,
    id: i32,
    run_at: LocalInstant,
    day: u32,
    hour: u32,
    minute: u32,
    now: LocalInstant,
)
    requires
        spec_valid_monthly_pattern(day, hour, minute),
    ensures
        spec_schedule_once(reports, schedules, id, run_at).1 is Ok ==> ({
            let after_once = spec_schedule_once(reports, schedules, id, run_at).0;
            let (after_both, r2) = spec_schedule_monthly(
                reports,
                after_once,
                id,
                day,
                hour,
                minute,
                now,
            );
            &&& r2 == Err::<LocalInstant, ScheduleError>(ScheduleError::AlreadyScheduled)
            &&& after_both == after_once
        }),
        spec_schedule_monthly(reports, schedules, id, day, hour, minute, now).1 is Ok ==> ({
            let after_monthly = spec_schedule_monthly(
                reports,
                schedules,
                id,
                day,
                hour,
                minute,
                now,
            ).0;
            let (after_both, r2) = spec_schedule_once(reports, after_monthly, id, run_at);
            &&& r2 == Err::<LocalInstant, ScheduleError>(ScheduleError::AlreadyScheduled)
            &&& after_both == after_monthly
        }),
{
    if spec_schedule_once(reports, schedules, id, run_at).1 is Ok {
        let entry = ReportSchedule::OneTime(OneTimeReportSchedule { id, when: run_at });
        lemma_first_schedule_push(schedules, entry, id);
    }
    if spec_schedule_monthly(reports, schedules, id, day, hour, minute, now).1 is Ok {
        let entry = ReportSchedule::Monthly(MonthlyReportSchedule { id, day, hour, minute });
        lemma_first_schedule_push(schedules, entry, id);
    }
}

} // verus!
