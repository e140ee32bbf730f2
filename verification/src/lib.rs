//! Verified core of a laptop power/graphics control panel.
//!
//! The library gathers failure-prone host signals into consistent snapshots
//! (`SystemStats`, `BatteryStatus`) and maps the outcome of privileged
//! mutating actions to success or failure. All process spawning is left to
//! the caller: the library says which command to run for each query or
//! action, and turns the raw outcome (captured output, exit status, or a
//! spawn error) into the snapshot fields or the action result.

pub mod action;
pub mod battery;
pub mod query;
pub mod stats;
pub mod text;
