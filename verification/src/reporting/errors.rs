//! Failure values returned by the scheduling operations.
//!
//! Every error is a recoverable condition reported to the caller; the core
//! never panics on these paths and never retries.

use vstd::prelude::*;

verus! {

/// Why a registration, scheduling or query operation was refused.
#[derive(Clone, Copy, Debug, PartialEq, Eq, Structural)]
pub enum ScheduleError {
    /// A report with the same identifier is already registered.
    DuplicateId,
    /// The operation referred to an identifier that was never registered.
    UnknownReport,
    /// The report already has a schedule, of either kind.
    AlreadyScheduled,
    /// The report has no schedule yet.
    NotScheduled,
    /// A monthly pattern had its day, hour or minute out of range.
    InvalidSchedule,
}

} // verus!
