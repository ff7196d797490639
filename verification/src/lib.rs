//! Verified core of a live operational dashboard: a bounded rolling history
//! with FIFO eviction, failure-tolerant sampling of an external metric
//! source, dual-cadence scheduling from a single clock, and a deterministic
//! chart renderer that maps a history snapshot to drawing commands.

pub mod rolling;
pub mod chart;
pub mod dashboard;
pub mod sample;
