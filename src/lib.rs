//! Rating aggregation for a judging system: running vote statistics kept in
//! constant space, released as snapshots behind an administrator check.

pub mod moments;
pub mod stats;
pub mod credential;
pub mod clock;
pub mod aggregator;
pub mod gate;
