//! Reconciliation of independently fetched transit open-data collections
//! into consistent station and route snapshots.

pub mod api;
pub mod arrivals;
pub mod cancellation;
pub mod cli;
pub mod errors;
pub mod fetch;
pub mod ids;
pub mod paths;
pub mod route;
pub mod request;
pub mod retry;
pub mod schedule;
pub mod snapshot;
pub mod storage;
pub mod text;
pub mod timetable;
