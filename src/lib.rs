//! Liveness of version-control sources: when did a repository last change,
//! how alive does that make it look, and the polling that keeps asking.
pub mod calendar;
pub mod liveness;
pub mod stamps;
pub mod sources;
pub mod local;
pub mod schedule;
pub mod controller;
pub mod args;
pub mod settings;
pub mod art;
