//! Confidence levels used by the statistics of the metrics plugins.

use vstd::prelude::*;

verus! {

/// Two-sided confidence level of an interval around a mean.
#[derive(Clone, Copy, Debug, PartialEq, Eq, Structural)]
pub enum ConfidenceLevel {
    P95,
    P99,
}

impl ConfidenceLevel {
    /// The z-score of the level, in hundredths: 1.96 for 95 %, 2.58 for 99 %.
    pub fn zscore_hundredths(&self) -> (r: u32)
        ensures
            *self == ConfidenceLevel::P95 ==> r == 196,
            *self == ConfidenceLevel::P99 ==> r == 258,
    {
        match self {
            ConfidenceLevel::P95 => 196,
            ConfidenceLevel::P99 => 258,
        }
    }
}

} // verus!
