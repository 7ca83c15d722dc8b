//! Metrics plugins and the statistics they share.

pub mod basic;
pub mod llamacpp;
pub mod utils;
