//! Work-hours tracking: worktime entries keyed by calendar day, a
//! store holding at most one entry per day, and a summary engine that
//! derives total worked time and overtime against an 8-hour workday.

pub mod format;
pub mod laws;
pub mod models;
pub mod store;
pub mod summary;
pub mod timeval;
