//! The two kinds of schedule a report can have, and their common wrapper.
//!
//! A report has at most one schedule in total; keeping both kinds in one
//! tagged value makes that exclusivity structural rather than a
//! cross-collection check.

use vstd::prelude::*;
use crate::reporting::instants::LocalInstant;

verus! {

/// Represents a report scheduled to be run repeatedly each month, at the
/// specified day, hour and minute.
#[derive(Clone, Copy, Debug, PartialEq, Eq, Structural)]
pub struct MonthlyReportSchedule {
    pub id: i32,
    /// Day of month, 1 to 31; clamped to the target month's last day when
    /// the month is shorter.
    pub day: u32,
    /// Hour of day, 0 to 23.
    pub hour: u32,
    /// Minute, 0 to 59.
    pub minute: u32,
}

/// Represents a report scheduled to run once at a certain instant in time.
#[derive(Clone, Copy, Debug, PartialEq, Eq, Structural)]
pub struct OneTimeReportSchedule {
    pub id: i32,
    pub when: LocalInstant,
}

/// The schedule of one report: exactly one of the two kinds.
#[derive(Clone, Copy, Debug, PartialEq, Eq, Structural)]
pub enum ReportSchedule {
    OneTime(OneTimeReportSchedule),
    Monthly(MonthlyReportSchedule),
}

impl MonthlyReportSchedule {
    /// The pattern's fields are within their ranges.
    pub open spec fn wf(self) -> bool {
        &&& 1 <= self.day <= 31
        &&& self.hour <= 23
        &&& self.minute <= 59
    }
}

impl ReportSchedule {
    /// The identifier of the report this schedule belongs to.
    pub open spec fn spec_report_id(self) -> i32 {
        match self {
            ReportSchedule::OneTime(s) => s.id,
            ReportSchedule::Monthly(s) => s.id,
        }
    }

    /// The schedule's own validity: a one-time instant is a real calendar
    /// instant, a monthly pattern has its fields in range.
    pub open spec fn wf(self) -> bool {
        match self {
            ReportSchedule::OneTime(s) => s.when.wf(),
            ReportSchedule::Monthly(s) => s.wf(),
        }
    }

    /// The identifier of the report this schedule belongs to.
    pub fn report_id(&self) -> (id: i32)
        ensures
            id == self.spec_report_id(),
    {
        match self {
            ReportSchedule::OneTime(s) => s.id,
            ReportSchedule::Monthly(s) => s.id,
        }
    }
}

} // verus!
