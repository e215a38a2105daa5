//! A small benchmarking harness: it times callables, averages repeated
//! measurements and sweeps two candidates over workloads of growing size.
//!
//! The library computes measurements and the lines of a report; printing
//! them is left to the caller.

pub mod compare;
pub mod report;
pub mod series;
pub mod sweep;
pub mod timer;
pub mod workload;
