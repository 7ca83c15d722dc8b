//! Verified core of a server benchmarking tool: request accounting,
//! metric aggregation, plugin selection and the decisions of the worker
//! and display loops.

pub mod cli;
pub mod metrics;
pub mod runner;
