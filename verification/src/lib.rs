//! Metric translation engine for a satellite-terminal metrics bridge.
//!
//! On each scrape, a device status snapshot (a tree of optional fields)
//! is reconciled into a typed metric state: counters that may roll back
//! on a device restart, scalar gauges where an absent field means "keep
//! the previous value", and fixed-cardinality labeled gauge vectors.
//! The transport, the exposition encoder and the HTTP server live
//! outside this crate; they hand plain values in and read plain values
//! out.

pub mod catalog;
pub mod counter;
pub mod error;
pub mod metrics;
pub mod sample;
pub mod snapshot;
pub mod update;
