//! The statistics snapshot handed out to administrators.

use vstd::prelude::*;

verus! {

/// A point-in-time copy of the aggregator's counters.
///
/// The mean and the spread of the outcomes are carried exactly, as the running
/// moments: with `votes = n`, the mean is `outcome_sum / n` and the population
/// variance is `(n * outcome_sq_sum - outcome_sum^2) / n^2`. With no votes both
/// are zero.
#[derive(Clone, Copy, Debug, PartialEq, Eq, Structural)]
pub struct Stats {
    pub projects: u64,
    pub seen: u64,
    pub votes: u64,
    pub time: u64,
    pub outcome_sum: i128,
    pub outcome_sq_sum: u128,
    pub judges: u64,
}

impl Stats {
    /// The snapshot of an aggregator that has seen nothing yet.
    pub open spec fn empty() -> Stats {
        Stats {
            projects: 0,
            seen: 0,
            votes: 0,
            time: 0,
            outcome_sum: 0,
            outcome_sq_sum: 0,
            judges: 0,
        }
    }
}

impl Default for Stats {
    fn default() -> (r: Stats)
        ensures
            r == Stats::empty(),
    {
        Self {
            projects: 0,
            seen: 0,
            votes: 0,
            time: 0,
            outcome_sum: 0,
            outcome_sq_sum: 0,
            judges: 0,
        }
    }
}

} // verus!
