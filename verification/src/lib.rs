//! Scheduling core for a small reporting service.
//!
//! Reports are registered under integer identifiers and given at most one
//! schedule each: either a single instant (run once) or a monthly pattern
//! (run on a given day of every month at a given hour and minute).  The
//! library answers "when does report X next run?" without knowing how a
//! report is executed; the surrounding driver polls it and runs the bodies.

pub mod reporting;
