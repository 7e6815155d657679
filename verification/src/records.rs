//! Records that a participant leaves with a market: predictions and votes.

use vstd::prelude::*;
use crate::identity::Identity;

verus! {

/// One participant's stake on one outcome of one market.
#[derive(Clone, Copy, PartialEq, Eq, Structural, Debug)]
pub struct Prediction {
    pub user: Identity,
    pub market: Identity,
    pub outcome_index: u8,
    pub amount: u64,
    pub timestamp: i64,
    pub claimed: bool,
    pub bump: u8,
}

/// One voter's vote on the outcome of one market.
#[derive(Clone, Copy, PartialEq, Eq, Structural, Debug)]
pub struct OutcomeVote {
    pub market: Identity,
    pub voter: Identity,
    pub outcome_index: u8,
    pub bump: u8,
}

impl Default for Prediction {
    /// An unclaimed prediction of nothing by nobody.
    fn default() -> (prediction: Prediction)
        ensures
            prediction == (Prediction {
                user: Identity { hi: 0, lo: 0 },
                market: Identity { hi: 0, lo: 0 },
                outcome_index: 0,
                amount: 0,
                timestamp: 0,
                claimed: false,
                bump: 0,
            }),
    {
        Prediction {
            user: Identity { hi: 0, lo: 0 },
            market: Identity { hi: 0, lo: 0 },
            outcome_index: 0,
            amount: 0,
            timestamp: 0,
            claimed: false,
            bump: 0,
        }
    }
}

impl Default for OutcomeVote {
    /// A vote for the first outcome by nobody.
    fn default() -> (vote: OutcomeVote)
        ensures
            vote == (OutcomeVote {
                market: Identity { hi: 0, lo: 0 },
                voter: Identity { hi: 0, lo: 0 },
                outcome_index: 0,
                bump: 0,
            }),
    {
        OutcomeVote {
            market: Identity { hi: 0, lo: 0 },
            voter: Identity { hi: 0, lo: 0 },
            outcome_index: 0,
            bump: 0,
        }
    }
}

} // verus!
