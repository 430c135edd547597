//! Administrator access to the aggregator's statistics.

use vstd::prelude::*;
use crate::aggregator::RatingAggregator;
use crate::credential::{secrets_match, AdminLogin};
use crate::stats::Stats;

verus! {

/// Why a statistics request was refused.
#[derive(Clone, Copy, Debug, PartialEq, Eq, Structural)]
pub enum AccessError {
    /// The credential does not match the administrator secret.
    Unauthorized,
}

/// Releases snapshots to callers who present the administrator secret.
pub struct StatsGate {
    secret: String,
}

impl StatsGate {
    /// The administrator secret that requests are checked against.
    pub closed spec fn secret(&self) -> Seq<char> {
        self.secret@
    }

    pub fn new(secret: String) -> (r: StatsGate)
        ensures
            r.secret() == secret@,
    {
        StatsGate { secret }
    }

    /// Whether `login` carries the administrator secret, compared in time
    /// that does not depend on the secret.
    pub fn admits(&self, login: &AdminLogin) -> (r: bool)
        ensures
            r == (login.password@ == self.secret()),
    {
        secrets_match(login.password, self.secret.as_str())
    }

    /// Checks `login` against the secret before the aggregator is read; on a
    /// match returns the aggregator's snapshot unchanged.
    pub fn request_stats(&self, login: &AdminLogin, aggregator: &RatingAggregator) -> (r: Result<
        Stats,
        AccessError,
    >)
        requires
            aggregator.wf(),
        ensures
            r == if login.password@ == self.secret() {
                Ok::<Stats, AccessError>(aggregator@.stats())
            } else {
                Err::<Stats, AccessError>(AccessError::Unauthorized)
            },
    {
        if !self.admits(login) {
            return Err(AccessError::Unauthorized);
        }
        Ok(aggregator.snapshot())
    }
}

} // verus!
