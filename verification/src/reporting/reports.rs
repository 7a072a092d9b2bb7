//! Description of a report: a named unit of deferred work whose body is
//! opaque to the scheduling core.

use vstd::prelude::*;

verus! {

/// A report that's generated from the results of a SQL query.
///
/// The scheduling core reads only `id`; the remaining fields describe the
/// work to the external driver and are never interpreted here.
pub struct SQLQueryReport {
    /// A unique identifier used when scheduling multiple reports by the same
    /// scheduler instance.
    pub id: i32,
    /// A friendly, even descriptive name to give the report.
    pub friendly_name: String,
    /// Used to disable running a report for any reason, without having to
    /// stop the reporter instance from finishing other reports.  The core
    /// keeps the flag but never reads it; the driver decides what to run.
    pub active: bool,
    /// SQL query to run to produce the report results.
    pub sql_query: String,
    /// Should SQL query headers be included in the results, as the first row?
    pub include_sql_headers: bool,
    /// Path to a folder on disk where the report will be saved.
    pub file_save_path: String,
}

} // verus!
