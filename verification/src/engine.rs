//! Reduction of trial outcomes into a probability estimate.
//!
//! An estimate is kept as an exact pair of integers, hits over trials, with
//! the invariant that the hit count never exceeds the trial count and at
//! least one trial was run. The quotient of such a pair lies in the closed
//! unit interval, so a caller that divides the two fields obtains a
//! probability in `[0, 1]`.

use vstd::prelude::*;
use crate::counting::count_hits;
use crate::counting::count_true;

verus! {

/// The result of a Monte Carlo run: how many of `trials` independent trials
/// ended with a terminal price strictly above the target.
#[derive(Clone, Copy, Debug, PartialEq, Eq, Structural)]
pub struct ProbabilityEstimate {
    pub hits: usize,
    pub trials: usize,
}

impl ProbabilityEstimate {
    /// Well-formedness: at least one trial was run, and the hit count is at
    /// most the trial count, so `hits / trials` lies in `[0, 1]`.
    pub open spec fn wf(self) -> bool {
        self.hits <= self.trials && 1 <= self.trials
    }

    /// Reduces one outcome per trial into an estimate: `hits` is exactly the
    /// number of `true` outcomes and `trials` the number of outcomes.
    pub fn from_outcomes(outcomes: &Vec<bool>) -> (est: ProbabilityEstimate)
        requires
            outcomes.len() >= 1,
        ensures
            est.hits == count_true(outcomes@),
            est.trials == outcomes.len(),
            est.wf(),
    {
        let hits = count_hits(outcomes);
        ProbabilityEstimate { hits, trials: outcomes.len() }
    }

    /// The estimate for a request whose outcome is the same for every trial,
    /// such as a zero-step horizon, where no randomness is consumed and each
    /// trial reduces to the same static price comparison: all trials hit, or
    /// none does.
    pub fn from_constant_outcome(outcome: bool, trials: usize) -> (est: ProbabilityEstimate)
        requires
            trials >= 1,
        ensures
            est.trials == trials,
            est.hits == if outcome {
                trials as int
            } else {
                0
            },
            est.wf(),
    {
        if outcome {
            ProbabilityEstimate { hits: trials, trials }
        } else {
            ProbabilityEstimate { hits: 0, trials }
        }
    }
}

} // verus!
