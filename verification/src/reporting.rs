//! The scheduling core: report descriptions, schedules, the calendar
//! arithmetic for monthly patterns, and the scheduler that ties them together.

pub mod errors;
pub mod instants;
pub mod reports;
pub mod schedules;
pub mod reporters;
pub mod schedulers;
pub mod util;
