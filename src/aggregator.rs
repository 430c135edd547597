//! The rating aggregator: counters and the running moments of vote outcomes,
//! kept in constant space however many votes arrive.

use vstd::prelude::*;
use crate::moments::{batch_dev_sq, lemma_running_moments_match_batch, sum_of, sum_sq_of};
use crate::stats::Stats;

verus! {

/// Largest magnitude of a vote outcome.
pub const OUTCOME_LIMIT: i64 = 1_000_000_000;

/// Whether `outcome` lies in the comparison domain `[-OUTCOME_LIMIT, OUTCOME_LIMIT]`.
pub open spec fn valid_outcome(outcome: int) -> bool {
    -OUTCOME_LIMIT <= outcome <= OUTCOME_LIMIT
}

/// Why a vote was rejected.
#[derive(Clone, Copy, Debug, PartialEq, Eq, Structural)]
pub enum VoteError {
    /// The outcome lies outside the comparison domain.
    InvalidOutcome,
}

/// What the aggregator has taken in, as mathematical values.
pub struct AggregatorModel {
    /// Distinct projects, in the order they were first seen.
    pub projects: Seq<u64>,
    /// Exposures of projects.
    pub seen: nat,
    /// Outcomes of the accepted votes, in order.
    pub outcomes: Seq<int>,
    /// Distinct judges, in the order of their first vote.
    pub judges: Seq<Seq<char>>,
    /// Largest age in seconds that was read off the clock.
    pub time: nat,
}

impl AggregatorModel {
    pub open spec fn fresh() -> AggregatorModel {
        AggregatorModel {
            projects: Seq::empty(),
            seen: 0,
            outcomes: Seq::empty(),
            judges: Seq::empty(),
            time: 0,
        }
    }

    /// After an exposure of `project`.
    pub open spec fn seen_project(self, project: u64) -> AggregatorModel {
        AggregatorModel {
            projects: if self.projects.contains(project) {
                self.projects
            } else {
                self.projects.push(project)
            },
            seen: self.seen + 1,
            ..self
        }
    }

    /// After an accepted vote of `judge` with `outcome`.
    pub open spec fn voted(self, judge: Seq<char>, outcome: int) -> AggregatorModel {
        AggregatorModel {
            outcomes: self.outcomes.push(outcome),
            judges: if self.judges.contains(judge) {
                self.judges
            } else {
                self.judges.push(judge)
            },
            ..self
        }
    }

    /// After a clock reading of `secs` seconds.
    pub open spec fn aged(self, secs: nat) -> AggregatorModel {
        AggregatorModel { time: if secs > self.time { secs } else { self.time }, ..self }
    }

    /// The snapshot that describes this state.
    pub open spec fn stats(self) -> Stats {
        Stats {
            projects: self.projects.len() as u64,
            seen: self.seen as u64,
            votes: self.outcomes.len() as u64,
            time: self.time as u64,
            outcome_sum: sum_of(self.outcomes) as i128,
            outcome_sq_sum: sum_sq_of(self.outcomes) as u128,
            judges: self.judges.len() as u64,
        }
    }
}

/// Running statistics over projects, exposures and votes.
pub struct RatingAggregator {
    started: std::time::Instant,
    project_ids: Vec<u64>,
    seen: u64,
    judge_ids: Vec<String>,
    votes: u64,
    outcome_sum: i128,
    outcome_sq_sum: u128,
    time: u64,
    outcomes: Ghost<Seq<int>>,
}

impl View for RatingAggregator {
    type V = AggregatorModel;

    closed spec fn view(&self) -> AggregatorModel {
        AggregatorModel {
            projects: self.project_ids@,
            seen: self.seen as nat,
            outcomes: self.outcomes@,
            judges: self.judge_ids@.map_values(|s: String| s@),
            time: self.time as nat,
        }
    }
}

impl RatingAggregator {
    /// The counters agree with the model, and the running moments with the
    /// outcomes, within bounds that keep them from overflowing.
    pub closed spec fn wf(&self) -> bool {
        &&& self.project_ids@.len() <= self.seen
        &&& self@.projects.no_duplicates()
        &&& self@.judges.no_duplicates()
        &&& self.judge_ids@.len() <= self.votes
        &&& self.votes == self.outcomes@.len()
        &&& self.outcome_sum == sum_of(self.outcomes@)
        &&& self.outcome_sq_sum == sum_sq_of(self.outcomes@)
        &&& -(self.votes * OUTCOME_LIMIT) <= self.outcome_sum <= self.votes * OUTCOME_LIMIT
        &&& self.outcome_sq_sum <= self.votes * (OUTCOME_LIMIT * OUTCOME_LIMIT)
    }

    /// An aggregator that has seen nothing, whose clock starts now.
    pub fn new() -> (r: RatingAggregator)
        ensures
            r.wf(),
            r@ == AggregatorModel::fresh(),
            r@.stats() == Stats::empty(),
    {
        let r = RatingAggregator {
            started: std::time::Instant::now(),
            project_ids: Vec::new(),
            seen: 0,
            judge_ids: Vec::new(),
            votes: 0,
            outcome_sum: 0,
            outcome_sq_sum: 0,
            time: 0,
            outcomes: Ghost(Seq::empty()),
        };
        assert(r@.judges =~= Seq::<Seq<char>>::empty());
        r
    }

    fn knows_project(&self, project: u64) -> (r: bool)
        ensures
            r == self@.projects.contains(project),
    {
        let mut i: usize = 0;
        while i < self.project_ids.len()
            invariant
                i <= self.project_ids@.len(),
                forall|j: int| 0 <= j < i ==> self.project_ids@[j] != project,
            decreases self.project_ids@.len() - i,
        {
            if self.project_ids[i] == project {
                return true;
            }
            i = i + 1;
        }
        false
    }

    fn knows_judge(&self, judge: &String) -> (r: bool)
        ensures
            r == self@.judges.contains(judge@),
    {
        let mut i: usize = 0;
        while i < self.judge_ids.len()
            invariant
                i <= self.judge_ids@.len(),
                forall|j: int| 0 <= j < i ==> self.judge_ids@[j]@ != judge@,
            decreases self.judge_ids@.len() - i,
        {
            if self.judge_ids[i] == *judge {
                assert(self@.judges[i as int] == judge@);
                return true;
            }
            i = i + 1;
        }
        assert forall|j: int| 0 <= j < self@.judges.len() implies self@.judges[j] != judge@ by {
            assert(self@.judges[j] == self.judge_ids@[j]@);
        }
        false
    }

    /// Counts an exposure of `project`; its first exposure registers it.
    pub fn record_project_seen(&mut self, project: u64)
        requires
            old(self).wf(),
            old(self)@.seen < u64::MAX,
        ensures
            final(self).wf(),
            final(self)@ == old(self)@.seen_project(project),
    {
        if !self.knows_project(project) {
            self.project_ids.push(project);
        }
        self.seen = self.seen + 1;
    }

    /// Records a vote of `judge` with `outcome`. A judge's first vote adds
    /// them to the judges. An outcome outside the comparison domain is
    /// rejected and leaves the aggregator as it was.
    pub fn record_vote(&mut self, judge: &str, outcome: i64) -> (r: Result<(), VoteError>)
        requires
            old(self).wf(),
            old(self)@.outcomes.len() < u64::MAX,
        ensures
            final(self).wf(),
            r is Ok <==> valid_outcome(outcome as int),
            r is Ok ==> final(self)@ == old(self)@.voted(judge@, outcome as int),
            r is Err ==> final(self)@ == old(self)@ && r == Err::<(), VoteError>(
                VoteError::InvalidOutcome,
            ),
    {
        if outcome < -OUTCOME_LIMIT || outcome > OUTCOME_LIMIT {
            return Err(VoteError::InvalidOutcome);
        }
        let ghost old_outcomes = self.outcomes@;
        let ghost old_judges = self@.judges;
        let judge_id = judge.to_owned();
        if !self.knows_judge(&judge_id) {
            self.judge_ids.push(judge_id);
            assert(self@.judges =~= old_judges.push(judge@));
        }
        let wide = outcome as i128;
        assert(0 <= wide * wide <= OUTCOME_LIMIT * OUTCOME_LIMIT) by (nonlinear_arith)
            requires
                -OUTCOME_LIMIT <= wide <= OUTCOME_LIMIT,
        ;
        let square = (wide * wide) as u128;
        proof {
            let n = self.votes as int;
            assert(n * OUTCOME_LIMIT + OUTCOME_LIMIT == (n + 1) * OUTCOME_LIMIT);
            assert(n * (OUTCOME_LIMIT * OUTCOME_LIMIT) + OUTCOME_LIMIT * OUTCOME_LIMIT == (n + 1)
                * (OUTCOME_LIMIT * OUTCOME_LIMIT));
            assert(old_outcomes.push(outcome as int).drop_last() =~= old_outcomes);
        }
        self.votes = self.votes + 1;
        self.outcome_sum = self.outcome_sum + wide;
        self.outcome_sq_sum = self.outcome_sq_sum + square;
        self.outcomes = Ghost(old_outcomes.push(outcome as int));
        Ok(())
    }

    /// Takes a clock reading of `secs` seconds since the start. The recorded
    /// age never decreases: an earlier reading than one already taken is
    /// ignored.
    pub fn observe_elapsed(&mut self, secs: u64) -> (r: u64)
        requires
            old(self).wf(),
        ensures
            final(self).wf(),
            final(self)@ == old(self)@.aged(secs as nat),
            r == final(self)@.time,
    {
        if secs > self.time {
            self.time = secs;
        }
        self.time
    }

    /// Seconds since the aggregator was made; never less than a value
    /// returned before.
    pub fn elapsed_seconds(&mut self) -> (r: u64)
        requires
            old(self).wf(),
        ensures
            final(self).wf(),
            r >= old(self)@.time,
            final(self)@ == (AggregatorModel { time: r as nat, ..old(self)@ }),
    {
        let secs = self.started.elapsed().as_secs();
        self.observe_elapsed(secs)
    }

    /// A copy of the counters and moments as they stand.
    pub fn snapshot(&self) -> (r: Stats)
        requires
            self.wf(),
        ensures
            r == self@.stats(),
    {
        Stats {
            projects: self.project_ids.len() as u64,
            seen: self.seen,
            votes: self.votes,
            time: self.time,
            outcome_sum: self.outcome_sum,
            outcome_sq_sum: self.outcome_sq_sum,
            judges: self.judge_ids.len() as u64,
        }
    }
}

/// Whatever the sequence of exposures and votes, the projects and the judges
/// counted are distinct, and a snapshot shows at least as many exposures as
/// projects and at least as many votes as judges.
pub proof fn lemma_counts_ordered(aggregator: &RatingAggregator)
    requires
        aggregator.wf(),
    ensures
        aggregator@.projects.no_duplicates(),
        aggregator@.judges.no_duplicates(),
        aggregator@.seen >= aggregator@.projects.len(),
        aggregator@.judges.len() <= aggregator@.outcomes.len(),
        aggregator@.stats().seen >= aggregator@.stats().projects,
        aggregator@.stats().judges <= aggregator@.stats().votes,
{
}

/// Every field of a snapshot is the model's value itself: no counter or
/// moment has been cut to fit its field.
pub proof fn lemma_snapshot_exact(aggregator: &RatingAggregator)
    requires
        aggregator.wf(),
    ensures
        aggregator@.stats().projects == aggregator@.projects.len(),
        aggregator@.stats().seen == aggregator@.seen,
        aggregator@.stats().votes == aggregator@.outcomes.len(),
        aggregator@.stats().time == aggregator@.time,
        aggregator@.stats().outcome_sum == sum_of(aggregator@.outcomes),
        aggregator@.stats().outcome_sq_sum == sum_sq_of(aggregator@.outcomes),
        aggregator@.stats().judges == aggregator@.judges.len(),
{
}

/// The moments in a snapshot give the same mean and variance as a direct
/// computation over every recorded outcome: the mean is
/// `outcome_sum / votes`, and the squared deviations from it, summed in a
/// second pass and scaled by `votes^2`, equal
/// `votes * (votes * outcome_sq_sum - outcome_sum^2)`, which is never negative.
pub proof fn lemma_snapshot_matches_batch(aggregator: &RatingAggregator)
    requires
        aggregator.wf(),
    ensures
        ({
            let s = aggregator@.stats();
            let n = s.votes as int;
            &&& n == aggregator@.outcomes.len()
            &&& s.outcome_sum == sum_of(aggregator@.outcomes)
            &&& batch_dev_sq(aggregator@.outcomes) == n * (n * s.outcome_sq_sum - s.outcome_sum
                * s.outcome_sum)
            &&& n * s.outcome_sq_sum - s.outcome_sum * s.outcome_sum >= 0
        }),
{
    lemma_snapshot_exact(aggregator);
    lemma_running_moments_match_batch(aggregator@.outcomes);
}

/// Two snapshots of an aggregator taken with no change in between are equal.
pub proof fn lemma_snapshot_repeatable(aggregator: &RatingAggregator, first: Stats, second: Stats)
    requires
        first == aggregator@.stats(),
        second == aggregator@.stats(),
    ensures
        first == second,
{
}

} // verus!
