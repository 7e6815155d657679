//! A market together with the records kept for it.
//!
//! The book binds the market, its predictions, its votes, its authorities
//! and its tally into one value. It keeps each record unique, keeps the
//! ledger equal to the predictions it stands for, and lets an operation
//! through only in the phase it belongs to.
//!
//! A book is one unit of consistency. Every operation takes it by unique
//! reference, so no two operations on one market interleave, and books of
//! different markets share nothing.
//!
//! Every operation asks for a well-formed book and leaves one behind. A
//! book that was made by [`MarketBook::new`] and changed by its operations
//! alone is well formed; [`MarketBook::is_well_formed`] tests a book that
//! was put together from stored records.

use vstd::prelude::*;
use crate::error::ErrorCode;
use crate::governance::{
    challenge_rejection, challenge_resolution, finalization_rejection, finalize_resolution,
    initialize_vote_result, proposal_rejection, propose_resolution, register_vote_authority,
    registration_rejection, stake_weighted_vote, vote_market_outcome, vote_rejection,
    vote_result_rejection, voting_deadline, weighted_vote_rejection, fresh_vote_result,
    governance_phase, GovernancePhase, ProposalEffect, VoteAuthority, VoteResult, VoteResultView,
    VOTING_PERIOD_SECONDS,
};
use crate::identity::Identity;
use crate::lifecycle::{
    admin_resolution_rejection, close_market, closing_rejection, resolve_market, MarketPhase,
};
use crate::market::{lemma_amount_within_sum, sum_amounts, Market, MarketView};
use crate::oracle::{oracle_rejection, resolve_market_via_ai, AIResolver};
use crate::profile::{CreatorProfile, UserProfile};
use crate::records::{OutcomeVote, Prediction};
use crate::score::Score;
use crate::settlement::{
    claim_receipt, claim_rejection, claim_reward, claim_settlement, claimant_after, creator_after,
    lemma_settlement_succeeds, user_share, winning_stakes, ClaimReceipt, Settlement,
};
use crate::staking::{
    stake_prediction, stake_prediction_rejection, stake_receipt, staker_after, StakeReceipt,
};

verus! {

/// A market and the records kept for it.
#[derive(Clone, Debug)]
pub struct MarketBook {
    pub market: Market,
    /// The predictions on the market, one for each participant at most.
    pub predictions: Vec<Prediction>,
    /// The votes on the market's outcome, one for each voter at most.
    pub votes: Vec<OutcomeVote>,
    /// The authorities registered for the market, each once.
    pub authorities: Vec<VoteAuthority>,
    /// The tally of the market's governance, once it is opened.
    pub vote_result: Option<VoteResult>,
    /// Whether the market's record was given up.
    pub closed: bool,
}

/// What a book holds, as mathematical values.
pub struct MarketBookView {
    pub market: MarketView,
    pub predictions: Seq<Prediction>,
    pub votes: Seq<OutcomeVote>,
    pub authorities: Seq<VoteAuthority>,
    pub vote_result: Option<VoteResultView>,
    pub closed: bool,
}

impl View for MarketBook {
    type V = MarketBookView;

    open spec fn view(&self) -> MarketBookView {
        MarketBookView {
            market: self.market@,
            predictions: self.predictions@,
            votes: self.votes@,
            authorities: self.authorities@,
            vote_result: match self.vote_result {
                Some(tally) => Some(tally@),
                None => None,
            },
            closed: self.closed,
        }
    }
}

/// What the predictions stake on `outcome_index`, all together.
pub open spec fn staked_on(predictions: Seq<Prediction>, outcome_index: u8) -> nat
    decreases predictions.len(),
{
    if predictions.len() == 0 {
        0
    } else if predictions.last().outcome_index == outcome_index {
        staked_on(predictions.drop_last(), outcome_index) + predictions.last().amount as nat
    } else {
        staked_on(predictions.drop_last(), outcome_index)
    }
}

/// What the predictions stake, all together.
pub open spec fn total_staked(predictions: Seq<Prediction>) -> nat
    decreases predictions.len(),
{
    if predictions.len() == 0 {
        0
    } else {
        total_staked(predictions.drop_last()) + predictions.last().amount as nat
    }
}

/// Whether `user` holds one of the predictions.
pub open spec fn has_prediction(predictions: Seq<Prediction>, user: Identity) -> bool {
    exists|i: int| 0 <= i < predictions.len() && #[trigger] predictions[i].user == user
}

/// Whether `voter` cast one of the votes.
pub open spec fn has_voted(votes: Seq<OutcomeVote>, voter: Identity) -> bool {
    exists|i: int| 0 <= i < votes.len() && #[trigger] votes[i].voter == voter
}

/// Whether `authority` is among the registered authorities.
pub open spec fn is_registered(authorities: Seq<VoteAuthority>, authority: Identity) -> bool {
    exists|i: int| 0 <= i < authorities.len() && #[trigger] authorities[i].authority == authority
}

impl MarketBookView {
    /// Every prediction is on this market and on one of its outcomes, and
    /// no participant holds two.
    pub open spec fn predictions_wf(self) -> bool {
        &&& forall|i: int|
            0 <= i < self.predictions.len() ==> {
                &&& (#[trigger] self.predictions[i]).market == self.market.key
                &&& self.market.has_outcome(self.predictions[i].outcome_index)
            }
        &&& forall|i: int, j: int|
            0 <= i < j < self.predictions.len() ==> (#[trigger] self.predictions[i]).user != (
            #[trigger] self.predictions[j]).user
    }

    /// The ledger says what the predictions say: each outcome's total is
    /// the sum of the predictions on it, and the pool is the sum of all
    /// predictions.
    pub open spec fn ledger_matches_predictions(self) -> bool {
        &&& forall|outcome_index: u8|
            self.market.has_outcome(outcome_index) ==> #[trigger] staked_on(
                self.predictions,
                outcome_index,
            ) == self.market.stakes_per_outcome[outcome_index as int]
        &&& total_staked(self.predictions) == self.market.total_pool
    }

    /// Every vote is on this market, and no voter cast two.
    pub open spec fn votes_wf(self) -> bool {
        &&& forall|i: int|
            0 <= i < self.votes.len() ==> (#[trigger] self.votes[i]).market == self.market.key
        &&& forall|i: int, j: int|
            0 <= i < j < self.votes.len() ==> (#[trigger] self.votes[i]).voter != (
            #[trigger] self.votes[j]).voter
    }

    /// Every authority is registered for this market, and none twice.
    pub open spec fn authorities_wf(self) -> bool {
        &&& forall|i: int|
            0 <= i < self.authorities.len() ==> (#[trigger] self.authorities[i]).market
                == self.market.key
        &&& forall|i: int, j: int|
            0 <= i < j < self.authorities.len() ==> (#[trigger] self.authorities[i]).authority
                != (#[trigger] self.authorities[j]).authority
    }

    /// The tally, once opened, is this market's and has an entry for each
    /// of its outcomes. It is finalized only where the market is resolved,
    /// and a proposal in it was made after the voting period.
    pub open spec fn vote_result_wf(self) -> bool {
        self.vote_result matches Some(tally) ==> {
            &&& tally.market == self.market.key
            &&& tally.wf_for(self.market)
            &&& tally.finalized ==> self.market.resolved
            &&& tally.resolution_proposed ==> tally.proposal_time > voting_deadline(self.market)
        }
    }

    /// Where the market's governance stands at `current_time`.
    pub open spec fn governance_phase(self, current_time: i64) -> GovernancePhase {
        governance_phase(self.market, self.vote_result, current_time)
    }

    /// A book is well formed when its market is, its records are the
    /// market's own and unique, and its ledger matches its predictions.
    pub open spec fn wf(self) -> bool {
        &&& self.market.wf()
        &&& self.predictions_wf()
        &&& self.ledger_matches_predictions()
        &&& self.votes_wf()
        &&& self.authorities_wf()
        &&& self.vote_result_wf()
    }

    /// Where the market stands at `current_time`.
    pub open spec fn phase(self, current_time: i64) -> MarketPhase {
        if self.closed {
            MarketPhase::Closed
        } else {
            self.market.phase(current_time)
        }
    }
}

/// A new prediction adds its amount to what is staked on its outcome, and
/// nothing to what is staked on the others.
pub proof fn lemma_staked_on_push(
    predictions: Seq<Prediction>,
    added: Prediction,
    outcome_index: u8,
)
    ensures
        staked_on(predictions.push(added), outcome_index) == staked_on(predictions, outcome_index)
            + (if added.outcome_index == outcome_index {
            added.amount as nat
        } else {
            0
        }),
        total_staked(predictions.push(added)) == total_staked(predictions) + added.amount,
{
    assert(predictions.push(added).drop_last() =~= predictions);
}

/// What is staked does not depend on anything but the outcomes and the
/// amounts of the predictions.
pub proof fn lemma_staked_on_update(
    predictions: Seq<Prediction>,
    index: int,
    changed: Prediction,
    outcome_index: u8,
)
    requires
        0 <= index < predictions.len(),
        changed.outcome_index == predictions[index].outcome_index,
        changed.amount == predictions[index].amount,
    ensures
        staked_on(predictions.update(index, changed), outcome_index) == staked_on(
            predictions,
            outcome_index,
        ),
        total_staked(predictions.update(index, changed)) == total_staked(predictions),
    decreases predictions.len(),
{
    let updated = predictions.update(index, changed);
    if index < predictions.len() - 1 {
        assert(updated.drop_last() =~= predictions.drop_last().update(index, changed));
        lemma_staked_on_update(predictions.drop_last(), index, changed, outcome_index);
    } else {
        assert(updated.drop_last() =~= predictions.drop_last());
    }
}

/// In a well-formed book the ledger is the sum of the predictions: for
/// every outcome, the amounts of the predictions on it add up to the
/// outcome's stake total, and the stake totals of all outcomes, like the
/// amounts of all predictions, add up to the pool.
pub proof fn lemma_ledger_is_sum_of_predictions(book: MarketBookView)
    requires
        book.wf(),
    ensures
        forall|outcome_index: u8|
            book.market.has_outcome(outcome_index) ==> #[trigger] staked_on(
                book.predictions,
                outcome_index,
            ) == book.market.total_stake_for(outcome_index),
        sum_amounts(book.market.stakes_per_outcome) == book.market.total_pool,
        total_staked(book.predictions) == book.market.total_pool,
{
}

/// The first predictions stake no more than all of them.
proof fn lemma_staked_on_prefix(predictions: Seq<Prediction>, count: int, outcome_index: u8)
    requires
        0 <= count <= predictions.len(),
    ensures
        staked_on(predictions.take(count), outcome_index) <= staked_on(predictions, outcome_index),
        total_staked(predictions.take(count)) <= total_staked(predictions),
    decreases predictions.len(),
{
    if count < predictions.len() {
        assert(predictions.drop_last().take(count) =~= predictions.take(count));
        lemma_staked_on_prefix(predictions.drop_last(), count, outcome_index);
    } else {
        assert(predictions.take(count) =~= predictions);
    }
}

/// What the predictions stake on `outcome_index`, or `None` where that
/// does not fit 64 bits.
fn sum_staked_on(predictions: &Vec<Prediction>, outcome_index: u8) -> (sum: Option<u64>)
    ensures
        match sum {
            Some(staked) => staked == staked_on(predictions@, outcome_index),
            None => staked_on(predictions@, outcome_index) > u64::MAX,
        },
{
    let mut staked: u64 = 0;
    let mut i: usize = 0;
    while i < predictions.len()
        invariant
            i <= predictions.len(),
            staked == staked_on(predictions@.take(i as int), outcome_index),
        decreases predictions.len() - i,
    {
        proof {
            assert(predictions@.take(i as int + 1).drop_last() =~= predictions@.take(i as int));
            lemma_staked_on_prefix(predictions@, i as int + 1, outcome_index);
        }
        if predictions[i].outcome_index == outcome_index {
            staked = match staked.checked_add(predictions[i].amount) {
                Some(more) => more,
                None => {
                    return None;
                },
            };
        }
        i = i + 1;
    }
    assert(predictions@.take(i as int) =~= predictions@);
    Some(staked)
}

/// What the predictions stake, all together, or `None` where that does
/// not fit 64 bits.
fn sum_total_staked(predictions: &Vec<Prediction>) -> (sum: Option<u64>)
    ensures
        match sum {
            Some(staked) => staked == total_staked(predictions@),
            None => total_staked(predictions@) > u64::MAX,
        },
{
    let mut staked: u64 = 0;
    let mut i: usize = 0;
    while i < predictions.len()
        invariant
            i <= predictions.len(),
            staked == total_staked(predictions@.take(i as int)),
        decreases predictions.len() - i,
    {
        proof {
            assert(predictions@.take(i as int + 1).drop_last() =~= predictions@.take(i as int));
            lemma_staked_on_prefix(predictions@, i as int + 1, 0);
        }
        staked = match staked.checked_add(predictions[i].amount) {
            Some(more) => more,
            None => {
                return None;
            },
        };
        i = i + 1;
    }
    assert(predictions@.take(i as int) =~= predictions@);
    Some(staked)
}

/// Whether no identity occurs twice in `keys`.
fn all_distinct(keys: &Vec<Identity>) -> (distinct: bool)
    ensures
        distinct == (forall|i: int, j: int| 0 <= i < j < keys@.len() ==> keys@[i] != keys@[j]),
{
    let mut j: usize = 0;
    while j < keys.len()
        invariant
            j <= keys.len(),
            forall|a: int, b: int| 0 <= a < b < j ==> keys@[a] != keys@[b],
        decreases keys.len() - j,
    {
        let mut i: usize = 0;
        while i < j
            invariant
                i <= j < keys.len(),
                forall|a: int| 0 <= a < i ==> keys@[a] != keys@[j as int],
            decreases j - i,
        {
            if keys[i] == keys[j] {
                return false;
            }
            i = i + 1;
        }
        j = j + 1;
    }
    true
}

/// The place of the prediction that `user` holds, where there is one.
pub open spec fn position_of_prediction(predictions: Seq<Prediction>, user: Identity) -> int {
    choose|i: int| 0 <= i < predictions.len() && #[trigger] predictions[i].user == user
}

/// The place of the authority's registration, where there is one.
pub open spec fn position_of_authority(authorities: Seq<VoteAuthority>, authority: Identity)
    -> int {
    choose|i: int| 0 <= i < authorities.len() && #[trigger] authorities[i].authority == authority
}

/// The prediction that `user` holds, if any.
pub open spec fn prediction_of(predictions: Seq<Prediction>, user: Identity) -> Option<
    Prediction,
> {
    if has_prediction(predictions, user) {
        Some(predictions[position_of_prediction(predictions, user)])
    } else {
        None
    }
}

/// The place of the prediction that `user` holds, if any.
fn find_prediction(predictions: &Vec<Prediction>, user: Identity) -> (found: Option<usize>)
    ensures
        match found {
            Some(index) => index < predictions@.len() && predictions@[index as int].user == user,
            None => !has_prediction(predictions@, user),
        },
{
    let mut i: usize = 0;
    while i < predictions.len()
        invariant
            i <= predictions.len(),
            forall|j: int| 0 <= j < i ==> (#[trigger] predictions@[j]).user != user,
        decreases predictions.len() - i,
    {
        if predictions[i].user == user {
            return Some(i);
        }
        i = i + 1;
    }
    None
}

/// Why the book rejects a stake, or `None` where it takes it. The
/// conditions are tested in the order written.
pub open spec fn book_stake_rejection(
    book: MarketBookView,
    creator_profile: CreatorProfile,
    user_profile: Option<UserProfile>,
    user: Identity,
    outcome_index: u8,
    amount: u64,
    current_time: i64,
) -> Option<ErrorCode> {
    if book.closed {
        Some(ErrorCode::MarketClosed)
    } else if has_prediction(book.predictions, user) {
        Some(ErrorCode::RecordAlreadyExists)
    } else {
        stake_prediction_rejection(
            book.market,
            creator_profile,
            user_profile,
            user,
            outcome_index,
            amount,
            current_time,
        )
    }
}

/// Why the book rejects a claim, or `None` where it pays. The conditions
/// are tested in the order written.
pub open spec fn book_claim_rejection(
    book: MarketBookView,
    user_profile: Option<UserProfile>,
    creator_profile: Option<CreatorProfile>,
    user: Identity,
) -> Option<ErrorCode> {
    if book.closed {
        Some(ErrorCode::MarketClosed)
    } else {
        match prediction_of(book.predictions, user) {
            None => Some(ErrorCode::NotWinningPrediction),
            Some(prediction) => claim_rejection(
                book.market,
                prediction,
                user_profile,
                creator_profile,
                user,
            ),
        }
    }
}

impl MarketBook {
    /// The book of a market that nothing was staked on yet, or `None`
    /// where the market is not well formed or its pool is not empty.
    pub fn new(market: Market) -> (book: Option<MarketBook>)
        ensures
            book is Some <==> market@.wf() && market@.total_pool == 0,
            book matches Some(opened) ==> {
                &&& opened@ == (MarketBookView {
                    market: market@,
                    predictions: Seq::empty(),
                    votes: Seq::empty(),
                    authorities: Seq::empty(),
                    vote_result: None,
                    closed: false,
                })
                &&& opened@.wf()
            },
    {
        if !market.is_well_formed() || market.total_pool != 0 {
            return None;
        }
        proof {
            assert forall|outcome_index: u8| market@.has_outcome(outcome_index) implies staked_on(
                Seq::<Prediction>::empty(),
                outcome_index,
            ) == market@.stakes_per_outcome[outcome_index as int] by {
                lemma_amount_within_sum(market@.stakes_per_outcome, outcome_index as int);
            }
        }
        Some(
            MarketBook {
                market,
                predictions: Vec::new(),
                votes: Vec::new(),
                authorities: Vec::new(),
                vote_result: None,
                closed: false,
            },
        )
    }

    /// Whether the predictions are the market's own, on its outcomes, and
    /// unique to their holders.
    fn predictions_are_well_formed(&self) -> (ok: bool)
        ensures
            ok == self@.predictions_wf(),
    {
        let mut users: Vec<Identity> = Vec::new();
        let mut i: usize = 0;
        while i < self.predictions.len()
            invariant
                i <= self.predictions.len(),
                users@.len() == i,
                forall|k: int| 0 <= k < i ==> users@[k] == (#[trigger] self.predictions@[k]).user,
                forall|k: int|
                    0 <= k < i ==> {
                        &&& (#[trigger] self.predictions@[k]).market == self.market.key
                        &&& self@.market.has_outcome(self.predictions@[k].outcome_index)
                    },
            decreases self.predictions.len() - i,
        {
            let held: Prediction = self.predictions[i];
            if held.market != self.market.key || (held.outcome_index as usize)
                >= self.market.outcomes.len() {
                assert(self@.predictions[i as int] == held);
                return false;
            }
            users.push(held.user);
            i = i + 1;
        }
        let distinct = all_distinct(&users);
        proof {
            if distinct {
                assert forall|a: int, b: int| 0 <= a < b < self@.predictions.len() implies (
                #[trigger] self@.predictions[a]).user != (#[trigger] self@.predictions[b]).user by {
                    assert(users@[a] != users@[b]);
                }
            } else {
                let (a, b) = choose|a: int, b: int|
                    0 <= a < b < users@.len() && users@[a] == users@[b];
                assert(self@.predictions[a].user == self@.predictions[b].user);
            }
        }
        distinct
    }

    /// Whether the ledger says what the predictions say.
    fn ledger_is_matched(&self) -> (ok: bool)
        requires
            self@.market.stakes_per_outcome.len() == self@.market.outcomes.len(),
            self@.market.outcomes.len() <= 255,
        ensures
            ok == self@.ledger_matches_predictions(),
    {
        let mut outcome: usize = 0;
        while outcome < self.market.outcomes.len()
            invariant
                outcome <= self.market.outcomes.len(),
                self@.market.stakes_per_outcome.len() == self@.market.outcomes.len(),
                self@.market.outcomes.len() <= 255,
                forall|other: u8|
                    (other as int) < outcome ==> #[trigger] staked_on(self@.predictions, other)
                        == self@.market.stakes_per_outcome[other as int],
            decreases self.market.outcomes.len() - outcome,
        {
            let outcome_index: u8 = outcome as u8;
            match sum_staked_on(&self.predictions, outcome_index) {
                Some(staked) => {
                    if staked != self.market.stakes_per_outcome[outcome] {
                        return false;
                    }
                },
                None => {
                    return false;
                },
            }
            outcome = outcome + 1;
        }
        match sum_total_staked(&self.predictions) {
            Some(staked) => staked == self.market.total_pool,
            None => false,
        }
    }

    /// Whether the votes are on this market and unique to their voters.
    fn votes_are_well_formed(&self) -> (ok: bool)
        ensures
            ok == self@.votes_wf(),
    {
        let mut voters: Vec<Identity> = Vec::new();
        let mut i: usize = 0;
        while i < self.votes.len()
            invariant
                i <= self.votes.len(),
                voters@.len() == i,
                forall|k: int| 0 <= k < i ==> voters@[k] == (#[trigger] self.votes@[k]).voter,
                forall|k: int| 0 <= k < i ==> (#[trigger] self.votes@[k]).market == self.market.key,
            decreases self.votes.len() - i,
        {
            let cast: OutcomeVote = self.votes[i];
            if cast.market != self.market.key {
                assert(self@.votes[i as int] == cast);
                return false;
            }
            voters.push(cast.voter);
            i = i + 1;
        }
        let distinct = all_distinct(&voters);
        proof {
            if distinct {
                assert forall|a: int, b: int| 0 <= a < b < self@.votes.len() implies (
                #[trigger] self@.votes[a]).voter != (#[trigger] self@.votes[b]).voter by {
                    assert(voters@[a] != voters@[b]);
                }
            } else {
                let (a, b) = choose|a: int, b: int|
                    0 <= a < b < voters@.len() && voters@[a] == voters@[b];
                assert(self@.votes[a].voter == self@.votes[b].voter);
            }
        }
        distinct
    }

    /// Whether the authorities are registered for this market, each once.
    fn authorities_are_well_formed(&self) -> (ok: bool)
        ensures
            ok == self@.authorities_wf(),
    {
        let mut registered: Vec<Identity> = Vec::new();
        let mut i: usize = 0;
        while i < self.authorities.len()
            invariant
                i <= self.authorities.len(),
                registered@.len() == i,
                forall|k: int|
                    0 <= k < i ==> registered@[k] == (#[trigger] self.authorities@[k]).authority,
                forall|k: int|
                    0 <= k < i ==> (#[trigger] self.authorities@[k]).market == self.market.key,
            decreases self.authorities.len() - i,
        {
            let entry: VoteAuthority = self.authorities[i];
            if entry.market != self.market.key {
                assert(self@.authorities[i as int] == entry);
                return false;
            }
            registered.push(entry.authority);
            i = i + 1;
        }
        let distinct = all_distinct(&registered);
        proof {
            if distinct {
                assert forall|a: int, b: int| 0 <= a < b < self@.authorities.len() implies (
                #[trigger] self@.authorities[a]).authority != (
                #[trigger] self@.authorities[b]).authority by {
                    assert(registered@[a] != registered@[b]);
                }
            } else {
                let (a, b) = choose|a: int, b: int|
                    0 <= a < b < registered@.len() && registered@[a] == registered@[b];
                assert(self@.authorities[a].authority == self@.authorities[b].authority);
            }
        }
        distinct
    }

    /// Whether the tally, if one is open, fits the market.
    fn vote_result_is_well_formed(&self) -> (ok: bool)
        ensures
            ok == self@.vote_result_wf(),
    {
        match &self.vote_result {
            None => true,
            Some(tally) => {
                tally.market == self.market.key && tally.is_well_formed_for(&self.market) && (
                !tally.finalized || self.market.resolved) && (!tally.resolution_proposed
                    || tally.proposal_time as i128 > self.market.deadline as i128
                    + VOTING_PERIOD_SECONDS as i128)
            },
        }
    }

    /// Whether the book is well formed.
    pub fn is_well_formed(&self) -> (ok: bool)
        ensures
            ok == self@.wf(),
    {
        self.market.is_well_formed() && self.predictions_are_well_formed()
            && self.ledger_is_matched() && self.votes_are_well_formed()
            && self.authorities_are_well_formed() && self.vote_result_is_well_formed()
    }

    /// Where the market stands at `current_time`.
    pub fn phase(&self, current_time: i64) -> (phase: MarketPhase)
        ensures
            phase == self@.phase(current_time),
    {
        if self.closed {
            MarketPhase::Closed
        } else {
            self.market.phase(current_time)
        }
    }

    /// Where the market's governance stands at `current_time`.
    pub fn governance_phase(&self, current_time: i64) -> (phase: GovernancePhase)
        ensures
            phase == self@.governance_phase(current_time),
    {
        match &self.vote_result {
            None => GovernancePhase::Uninitialized,
            Some(tally) => {
                if tally.finalized {
                    GovernancePhase::Finalized
                } else if tally.resolution_proposed {
                    GovernancePhase::ProposalPending
                } else if current_time as i128 <= self.market.deadline as i128
                    + VOTING_PERIOD_SECONDS as i128 {
                    GovernancePhase::VotingOpen
                } else {
                    GovernancePhase::AwaitingProposal
                }
            },
        }
    }

    /// Stakes `amount` for `user` on `outcome_index` and keeps the new
    /// prediction.
    ///
    /// The stake is taken where the book is not closed, `user` holds no
    /// prediction on the market yet, and the market takes the stake. A
    /// stake that is rejected changes nothing.
    pub fn stake(
        &mut self,
        creator_profile: &mut CreatorProfile,
        user_profile: &mut Option<UserProfile>,
        user: Identity,
        outcome_index: u8,
        amount: u64,
        current_time: i64,
        bump: u8,
    ) -> (result: Result<StakeReceipt, ErrorCode>)
        requires
            old(self)@.wf(),
        ensures
            match result {
                Ok(receipt) => {
                    &&& book_stake_rejection(
                        old(self)@,
                        *old(creator_profile),
                        *old(user_profile),
                        user,
                        outcome_index,
                        amount,
                        current_time,
                    ) is None
                    &&& receipt == stake_receipt(
                        old(self)@.market,
                        *old(creator_profile),
                        user,
                        outcome_index,
                        amount,
                        current_time,
                        bump,
                    )
                    &&& final(self)@ == (MarketBookView {
                        market: old(self)@.market.with_stake(outcome_index, amount),
                        predictions: old(self)@.predictions.push(receipt.prediction),
                        ..old(self)@
                    })
                    &&& final(self)@.wf()
                    &&& *final(creator_profile) == old(creator_profile).with_staked_volume(
                        amount,
                    ).promoted()
                    &&& *final(user_profile) == staker_after(
                        *old(user_profile),
                        amount,
                        current_time,
                    )
                },
                Err(error) => {
                    &&& book_stake_rejection(
                        old(self)@,
                        *old(creator_profile),
                        *old(user_profile),
                        user,
                        outcome_index,
                        amount,
                        current_time,
                    ) == Some(error)
                    &&& *final(self) == *old(self)
                    &&& *final(creator_profile) == *old(creator_profile)
                    &&& *final(user_profile) == *old(user_profile)
                },
            },
    {
        if self.closed {
            return Err(ErrorCode::MarketClosed);
        }
        match find_prediction(&self.predictions, user) {
            Some(_) => {
                return Err(ErrorCode::RecordAlreadyExists);
            },
            None => {},
        }
        let receipt: StakeReceipt = match stake_prediction(
            &mut self.market,
            creator_profile,
            user_profile,
            user,
            outcome_index,
            amount,
            current_time,
            bump,
        ) {
            Ok(receipt) => receipt,
            Err(error) => {
                return Err(error);
            },
        };
        self.predictions.push(receipt.prediction);
        proof {
            let before = old(self)@;
            let after = self@;
            lemma_amount_within_sum(before.market.stakes_per_outcome, outcome_index as int);
            assert forall|other: u8| after.market.has_outcome(other) implies #[trigger] staked_on(
                after.predictions,
                other,
            ) == after.market.stakes_per_outcome[other as int] by {
                lemma_staked_on_push(before.predictions, receipt.prediction, other);
            }
            lemma_staked_on_push(before.predictions, receipt.prediction, outcome_index);
        }
        Ok(receipt)
    }

    /// Claims the reward of the prediction that `user` holds.
    ///
    /// The claim is paid where the book is not closed, `user` holds a
    /// prediction, and the claim on it succeeds. A claim that is rejected
    /// changes nothing.
    pub fn claim(
        &mut self,
        user_profile: &mut Option<UserProfile>,
        creator_profile: &mut Option<CreatorProfile>,
        user: Identity,
        current_time: i64,
    ) -> (result: Result<ClaimReceipt, ErrorCode>)
        requires
            old(self)@.wf(),
        ensures
            match result {
                Ok(receipt) => {
                    &&& book_claim_rejection(
                        old(self)@,
                        *old(user_profile),
                        *old(creator_profile),
                        user,
                    ) is None
                    &&& prediction_of(old(self)@.predictions, user) matches Some(prediction) && {
                        &&& claim_settlement(old(self)@.market, prediction) == Ok::<
                            Settlement,
                            ErrorCode,
                        >(receipt.settlement)
                        &&& receipt == claim_receipt(
                            old(self)@.market,
                            prediction,
                            *old(creator_profile),
                            receipt.settlement,
                        )
                        &&& final(self)@ == (MarketBookView {
                            predictions: old(self)@.predictions.update(
                                position_of_prediction(old(self)@.predictions, user),
                                Prediction { claimed: true, ..prediction },
                            ),
                            ..old(self)@
                        })
                    }
                    &&& final(self)@.wf()
                    &&& *final(user_profile) == claimant_after(
                        *old(user_profile),
                        receipt.settlement.reward,
                        current_time,
                    )
                    &&& *final(creator_profile) == creator_after(
                        *old(creator_profile),
                        receipt.settlement.reward,
                    )
                },
                Err(error) => {
                    &&& book_claim_rejection(
                        old(self)@,
                        *old(user_profile),
                        *old(creator_profile),
                        user,
                    ) == Some(error)
                    &&& *final(self) == *old(self)
                    &&& *final(user_profile) == *old(user_profile)
                    &&& *final(creator_profile) == *old(creator_profile)
                },
            },
    {
        if self.closed {
            return Err(ErrorCode::MarketClosed);
        }
        let index: usize = match find_prediction(&self.predictions, user) {
            Some(index) => index,
            None => {
                return Err(ErrorCode::NotWinningPrediction);
            },
        };
        let mut prediction: Prediction = self.predictions[index];
        let receipt: ClaimReceipt = match claim_reward(
            &self.market,
            &mut prediction,
            user_profile,
            creator_profile,
            user,
            current_time,
        ) {
            Ok(receipt) => receipt,
            Err(error) => {
                return Err(error);
            },
        };
        self.predictions.set(index, prediction);
        proof {
            let before = old(self)@;
            let after = self@;
            assert forall|other: u8| after.market.has_outcome(other) implies #[trigger] staked_on(
                after.predictions,
                other,
            ) == after.market.stakes_per_outcome[other as int] by {
                lemma_staked_on_update(before.predictions, index as int, prediction, other);
            }
            lemma_staked_on_update(before.predictions, index as int, prediction, 0);
        }
        Ok(receipt)
    }
}

/// The place of the vote of `voter`, if any.
fn find_vote(votes: &Vec<OutcomeVote>, voter: Identity) -> (found: Option<usize>)
    ensures
        match found {
            Some(index) => index < votes@.len() && votes@[index as int].voter == voter,
            None => !has_voted(votes@, voter),
        },
{
    let mut i: usize = 0;
    while i < votes.len()
        invariant
            i <= votes.len(),
            forall|j: int| 0 <= j < i ==> (#[trigger] votes@[j]).voter != voter,
        decreases votes.len() - i,
    {
        if votes[i].voter == voter {
            return Some(i);
        }
        i = i + 1;
    }
    None
}

/// The place of the registration of `authority`, if any.
fn find_authority(authorities: &Vec<VoteAuthority>, authority: Identity) -> (found: Option<usize>)
    ensures
        match found {
            Some(index) => index < authorities@.len() && authorities@[index as int].authority
                == authority,
            None => !is_registered(authorities@, authority),
        },
{
    let mut i: usize = 0;
    while i < authorities.len()
        invariant
            i <= authorities.len(),
            forall|j: int| 0 <= j < i ==> (#[trigger] authorities@[j]).authority != authority,
        decreases authorities.len() - i,
    {
        if authorities[i].authority == authority {
            return Some(i);
        }
        i = i + 1;
    }
    None
}

/// Why the book does not open the tally, or `None` where it does. The
/// conditions are tested in the order written.
pub open spec fn book_open_voting_rejection(book: MarketBookView, current_time: i64) -> Option<
    ErrorCode,
> {
    if book.closed {
        Some(ErrorCode::MarketClosed)
    } else if book.vote_result is Some {
        Some(ErrorCode::RecordAlreadyExists)
    } else {
        vote_result_rejection(book.market, current_time)
    }
}

/// Why the book rejects a vote that no stake backs, or `None` where it
/// takes it. The conditions are tested in the order written.
pub open spec fn book_vote_rejection(
    book: MarketBookView,
    voter: Identity,
    outcome_index: u8,
    current_time: i64,
) -> Option<ErrorCode> {
    if book.closed {
        Some(ErrorCode::MarketClosed)
    } else if has_voted(book.votes, voter) {
        Some(ErrorCode::RecordAlreadyExists)
    } else {
        vote_rejection(book.market, outcome_index, current_time)
    }
}

/// Why the book rejects a stake-weighted vote, or `None` where it takes
/// it. The conditions are tested in the order written.
pub open spec fn book_weighted_vote_rejection(
    book: MarketBookView,
    voter: Identity,
    outcome_index: u8,
    current_time: i64,
) -> Option<ErrorCode> {
    if book.closed {
        Some(ErrorCode::MarketClosed)
    } else if has_voted(book.votes, voter) {
        Some(ErrorCode::RecordAlreadyExists)
    } else if book.vote_result is None {
        Some(ErrorCode::VotingNotStarted)
    } else {
        weighted_vote_rejection(
            book.market,
            book.vote_result->Some_0,
            prediction_of(book.predictions, voter),
            voter,
            outcome_index,
            current_time,
        )
    }
}

/// Why the book does not register an authority, or `None` where it does.
/// The conditions are tested in the order written.
pub open spec fn book_registration_rejection(
    book: MarketBookView,
    signer: Identity,
    admin: Identity,
    authority: Identity,
    weight: u8,
) -> Option<ErrorCode> {
    if book.closed {
        Some(ErrorCode::MarketClosed)
    } else if is_registered(book.authorities, authority) {
        Some(ErrorCode::RecordAlreadyExists)
    } else {
        registration_rejection(book.market, signer, admin, weight)
    }
}

/// Why the book rejects a proposal, or `None` where it takes it. The
/// conditions are tested in the order written.
pub open spec fn book_proposal_rejection(
    book: MarketBookView,
    authority: Identity,
    outcome_index: u8,
    current_time: i64,
) -> Option<ErrorCode> {
    if book.closed {
        Some(ErrorCode::MarketClosed)
    } else if !is_registered(book.authorities, authority) {
        Some(ErrorCode::Unauthorized)
    } else if book.vote_result is None {
        Some(ErrorCode::VotingNotStarted)
    } else {
        proposal_rejection(
            book.market,
            book.vote_result->Some_0,
            book.authorities[position_of_authority(book.authorities, authority)],
            authority,
            outcome_index,
            current_time,
        )
    }
}

/// Why the book rejects a challenge, or `None` where it takes it. The
/// conditions are tested in the order written.
pub open spec fn book_challenge_rejection(book: MarketBookView, current_time: i64) -> Option<
    ErrorCode,
> {
    if book.closed {
        Some(ErrorCode::MarketClosed)
    } else if book.vote_result is None {
        Some(ErrorCode::NoProposedResolution)
    } else {
        challenge_rejection(book.vote_result->Some_0, current_time)
    }
}

/// Why the book rejects a finalization, or `None` where it succeeds. The
/// conditions are tested in the order written.
pub open spec fn book_finalization_rejection(book: MarketBookView, current_time: i64) -> Option<
    ErrorCode,
> {
    if book.closed {
        Some(ErrorCode::MarketClosed)
    } else if book.vote_result is None {
        Some(ErrorCode::NoProposedResolution)
    } else {
        finalization_rejection(book.market, book.vote_result->Some_0, current_time)
    }
}

/// Why the book rejects a resolution by the oracle, or `None` where it
/// accepts it. The conditions are tested in the order written.
pub open spec fn book_oracle_rejection(
    book: MarketBookView,
    ai_resolver: AIResolver,
    resolver_authority: Identity,
    winning_outcome_index: u8,
    ai_confidence_score: Score,
    current_time: i64,
) -> Option<ErrorCode> {
    if book.closed {
        Some(ErrorCode::MarketClosed)
    } else {
        oracle_rejection(
            book.market,
            ai_resolver,
            resolver_authority,
            winning_outcome_index,
            ai_confidence_score,
            current_time,
        )
    }
}

/// Why the book rejects a resolution by the administrator, or `None` where
/// it accepts it. The conditions are tested in the order written.
pub open spec fn book_admin_resolution_rejection(
    book: MarketBookView,
    signer: Identity,
    admin: Identity,
    winning_outcome_index: Option<u8>,
) -> Option<ErrorCode> {
    if book.closed {
        Some(ErrorCode::MarketClosed)
    } else {
        admin_resolution_rejection(book.market, signer, admin, winning_outcome_index)
    }
}

/// Why the book cannot be closed, or `None` where it can. The conditions
/// are tested in the order written.
pub open spec fn book_closing_rejection(
    book: MarketBookView,
    signer: Identity,
    admin: Identity,
    vault_balance: u64,
) -> Option<ErrorCode> {
    if book.closed {
        Some(ErrorCode::MarketClosed)
    } else {
        closing_rejection(book.market, signer, admin, vault_balance)
    }
}

impl MarketBook {
    /// Opens the tally of the market's governance.
    ///
    /// The tally is opened where the book is not closed, no tally is open
    /// yet, and the market is open-ended and past its deadline.
    pub fn open_voting(&mut self, current_time: i64, bump: u8) -> (result: Result<(), ErrorCode>)
        requires
            old(self)@.wf(),
        ensures
            match result {
                Ok(()) => {
                    &&& book_open_voting_rejection(old(self)@, current_time) is None
                    &&& final(self)@ == (MarketBookView {
                        vote_result: Some(fresh_vote_result(old(self)@.market, bump)),
                        ..old(self)@
                    })
                    &&& final(self)@.wf()
                },
                Err(error) => {
                    &&& book_open_voting_rejection(old(self)@, current_time) == Some(error)
                    &&& *final(self) == *old(self)
                },
            },
    {
        if self.closed {
            return Err(ErrorCode::MarketClosed);
        }
        if self.vote_result.is_some() {
            return Err(ErrorCode::RecordAlreadyExists);
        }
        let tally: VoteResult = match initialize_vote_result(&self.market, current_time, bump) {
            Ok(tally) => tally,
            Err(error) => {
                return Err(error);
            },
        };
        self.vote_result = Some(tally);
        Ok(())
    }

    /// Records a vote of `voter` for `outcome_index` that no stake backs.
    ///
    /// The vote is taken where the book is not closed, `voter` has not
    /// voted on the market yet, and the market takes the vote. A vote
    /// that is rejected changes nothing.
    pub fn vote(
        &mut self,
        voter: Identity,
        outcome_index: u8,
        current_time: i64,
        bump: u8,
    ) -> (result: Result<OutcomeVote, ErrorCode>)
        requires
            old(self)@.wf(),
        ensures
            match result {
                Ok(vote) => {
                    &&& book_vote_rejection(old(self)@, voter, outcome_index, current_time) is None
                    &&& vote == (OutcomeVote {
                        market: old(self)@.market.key,
                        voter,
                        outcome_index,
                        bump,
                    })
                    &&& final(self)@ == (MarketBookView {
                        votes: old(self)@.votes.push(vote),
                        ..old(self)@
                    })
                    &&& final(self)@.wf()
                },
                Err(error) => {
                    &&& book_vote_rejection(old(self)@, voter, outcome_index, current_time)
                        == Some(error)
                    &&& *final(self) == *old(self)
                },
            },
    {
        if self.closed {
            return Err(ErrorCode::MarketClosed);
        }
        match find_vote(&self.votes, voter) {
            Some(_) => {
                return Err(ErrorCode::RecordAlreadyExists);
            },
            None => {},
        }
        let vote: OutcomeVote = match vote_market_outcome(
            &self.market,
            voter,
            outcome_index,
            current_time,
            bump,
        ) {
            Ok(vote) => vote,
            Err(error) => {
                return Err(error);
            },
        };
        self.votes.push(vote);
        Ok(vote)
    }

    /// Records a vote of `voter` for `outcome_index`, weighted by the
    /// stake of the prediction that `voter` holds.
    ///
    /// The vote is taken where the book is not closed, `voter` has not
    /// voted on the market yet, the tally is open, and the market takes
    /// the vote. A voter who holds no prediction has no stake to vote
    /// with. A vote that is rejected changes nothing.
    pub fn weighted_vote(
        &mut self,
        voter: Identity,
        outcome_index: u8,
        current_time: i64,
        bump: u8,
    ) -> (result: Result<OutcomeVote, ErrorCode>)
        requires
            old(self)@.wf(),
        ensures
            match result {
                Ok(vote) => {
                    &&& book_weighted_vote_rejection(
                        old(self)@,
                        voter,
                        outcome_index,
                        current_time,
                    ) is None
                    &&& vote == (OutcomeVote {
                        market: old(self)@.market.key,
                        voter,
                        outcome_index,
                        bump,
                    })
                    &&& final(self)@ == (MarketBookView {
                        votes: old(self)@.votes.push(vote),
                        vote_result: Some(
                            old(self)@.vote_result->Some_0.with_vote(
                                outcome_index,
                                prediction_of(old(self)@.predictions, voter)->Some_0.amount,
                            ),
                        ),
                        ..old(self)@
                    })
                    &&& final(self)@.wf()
                },
                Err(error) => {
                    &&& book_weighted_vote_rejection(
                        old(self)@,
                        voter,
                        outcome_index,
                        current_time,
                    ) == Some(error)
                    &&& *final(self) == *old(self)
                },
            },
    {
        if self.closed {
            return Err(ErrorCode::MarketClosed);
        }
        match find_vote(&self.votes, voter) {
            Some(_) => {
                return Err(ErrorCode::RecordAlreadyExists);
            },
            None => {},
        }
        let prediction: Option<Prediction> = match find_prediction(&self.predictions, voter) {
            Some(index) => {
                Some(self.predictions[index])
            },
            None => None,
        };
        let mut tally: VoteResult = match self.vote_result.take() {
            Some(tally) => tally,
            None => {
                return Err(ErrorCode::VotingNotStarted);
            },
        };
        let outcome = stake_weighted_vote(
            &self.market,
            &mut tally,
            prediction,
            voter,
            outcome_index,
            current_time,
            bump,
        );
        self.vote_result = Some(tally);
        let vote: OutcomeVote = match outcome {
            Ok(vote) => vote,
            Err(error) => {
                return Err(error);
            },
        };
        self.votes.push(vote);
        Ok(vote)
    }

    /// Registers `authority` with `weight` for the market's governance.
    ///
    /// The authority is registered where the book is not closed, the
    /// authority is not registered yet, and the registration is accepted.
    /// A registration that is rejected changes nothing.
    pub fn register_authority(
        &mut self,
        signer: Identity,
        admin: Identity,
        authority: Identity,
        weight: u8,
        bump: u8,
    ) -> (result: Result<VoteAuthority, ErrorCode>)
        requires
            old(self)@.wf(),
        ensures
            match result {
                Ok(registered) => {
                    &&& book_registration_rejection(old(self)@, signer, admin, authority, weight)
                        is None
                    &&& registered == (VoteAuthority {
                        market: old(self)@.market.key,
                        authority,
                        weight,
                        has_voted: false,
                        vote: None,
                        bump,
                    })
                    &&& final(self)@ == (MarketBookView {
                        authorities: old(self)@.authorities.push(registered),
                        ..old(self)@
                    })
                    &&& final(self)@.wf()
                },
                Err(error) => {
                    &&& book_registration_rejection(old(self)@, signer, admin, authority, weight)
                        == Some(error)
                    &&& *final(self) == *old(self)
                },
            },
    {
        if self.closed {
            return Err(ErrorCode::MarketClosed);
        }
        match find_authority(&self.authorities, authority) {
            Some(_) => {
                return Err(ErrorCode::RecordAlreadyExists);
            },
            None => {},
        }
        let registered: VoteAuthority = match register_vote_authority(
            &self.market,
            signer,
            admin,
            authority,
            weight,
            bump,
        ) {
            Ok(registered) => registered,
            Err(error) => {
                return Err(error);
            },
        };
        self.authorities.push(registered);
        Ok(registered)
    }

    /// Takes the proposal of the registered `authority` that
    /// `outcome_index` has won.
    ///
    /// The proposal is taken where the book is not closed, `authority` is
    /// registered, the tally is open, and the market takes the proposal.
    /// A proposal that is rejected changes nothing.
    pub fn propose(
        &mut self,
        authority: Identity,
        outcome_index: u8,
        current_time: i64,
    ) -> (result: Result<ProposalEffect, ErrorCode>)
        requires
            old(self)@.wf(),
        ensures
            match result {
                Ok(effect) => {
                    &&& book_proposal_rejection(old(self)@, authority, outcome_index, current_time)
                        is None
                    &&& effect == old(self)@.vote_result->Some_0.proposal_effect(outcome_index)
                    &&& final(self)@ == (MarketBookView {
                        vote_result: Some(
                            old(self)@.vote_result->Some_0.with_proposal(
                                outcome_index,
                                current_time,
                            ),
                        ),
                        authorities: old(self)@.authorities.update(
                            position_of_authority(old(self)@.authorities, authority),
                            VoteAuthority {
                                has_voted: true,
                                vote: Some(outcome_index),
                                ..old(self)@.authorities[position_of_authority(
                                    old(self)@.authorities,
                                    authority,
                                )]
                            },
                        ),
                        ..old(self)@
                    })
                    &&& final(self)@.wf()
                },
                Err(error) => {
                    &&& book_proposal_rejection(old(self)@, authority, outcome_index, current_time)
                        == Some(error)
                    &&& *final(self) == *old(self)
                },
            },
    {
        if self.closed {
            return Err(ErrorCode::MarketClosed);
        }
        let index: usize = match find_authority(&self.authorities, authority) {
            Some(index) => index,
            None => {
                return Err(ErrorCode::Unauthorized);
            },
        };
        let mut registered: VoteAuthority = self.authorities[index];
        let mut tally: VoteResult = match self.vote_result.take() {
            Some(tally) => tally,
            None => {
                return Err(ErrorCode::VotingNotStarted);
            },
        };
        let outcome = propose_resolution(
            &self.market,
            &mut tally,
            &mut registered,
            authority,
            outcome_index,
            current_time,
        );
        self.vote_result = Some(tally);
        let effect: ProposalEffect = match outcome {
            Ok(effect) => effect,
            Err(error) => {
                return Err(error);
            },
        };
        self.authorities.set(index, registered);
        Ok(effect)
    }

    /// Takes a challenge of the standing proposal and hands back the new
    /// number of challenges.
    pub fn challenge(&mut self, current_time: i64) -> (result: Result<u8, ErrorCode>)
        requires
            old(self)@.wf(),
        ensures
            match result {
                Ok(challenge_count) => {
                    &&& book_challenge_rejection(old(self)@, current_time) is None
                    &&& challenge_count == old(self)@.vote_result->Some_0.challenge_count + 1
                    &&& final(self)@ == (MarketBookView {
                        vote_result: Some(
                            VoteResultView { challenge_count, ..old(self)@.vote_result->Some_0 },
                        ),
                        ..old(self)@
                    })
                    &&& final(self)@.wf()
                },
                Err(error) => {
                    &&& book_challenge_rejection(old(self)@, current_time) == Some(error)
                    &&& *final(self) == *old(self)
                },
            },
    {
        if self.closed {
            return Err(ErrorCode::MarketClosed);
        }
        let mut tally: VoteResult = match self.vote_result.take() {
            Some(tally) => tally,
            None => {
                return Err(ErrorCode::NoProposedResolution);
            },
        };
        let outcome = challenge_resolution(&mut tally, current_time);
        self.vote_result = Some(tally);
        outcome
    }

    /// Finalizes the resolution by governance and hands back the winning
    /// outcome.
    pub fn finalize(&mut self, current_time: i64) -> (result: Result<Option<u8>, ErrorCode>)
        requires
            old(self)@.wf(),
        ensures
            match result {
                Ok(winning_outcome) => {
                    &&& book_finalization_rejection(old(self)@, current_time) is None
                    &&& winning_outcome == old(self)@.vote_result->Some_0.final_outcome()
                    &&& final(self)@ == (MarketBookView {
                        market: old(self)@.market.resolved_to(winning_outcome),
                        vote_result: Some(old(self)@.vote_result->Some_0.finalized_tally()),
                        ..old(self)@
                    })
                    &&& final(self)@.wf()
                },
                Err(error) => {
                    &&& book_finalization_rejection(old(self)@, current_time) == Some(error)
                    &&& *final(self) == *old(self)
                },
            },
    {
        if self.closed {
            return Err(ErrorCode::MarketClosed);
        }
        let mut tally: VoteResult = match self.vote_result.take() {
            Some(tally) => tally,
            None => {
                return Err(ErrorCode::NoProposedResolution);
            },
        };
        let outcome = finalize_resolution(&mut self.market, &mut tally, current_time);
        self.vote_result = Some(tally);
        outcome
    }

    /// Resolves the market on the word of the oracle.
    pub fn resolve_via_oracle(
        &mut self,
        ai_resolver: &mut AIResolver,
        resolver_authority: Identity,
        winning_outcome_index: u8,
        ai_confidence_score: Score,
        current_time: i64,
    ) -> (result: Result<(), ErrorCode>)
        requires
            old(self)@.wf(),
        ensures
            match result {
                Ok(()) => {
                    &&& book_oracle_rejection(
                        old(self)@,
                        *old(ai_resolver),
                        resolver_authority,
                        winning_outcome_index,
                        ai_confidence_score,
                        current_time,
                    ) is None
                    &&& final(self)@ == (MarketBookView {
                        market: old(self)@.market.resolved_to(Some(winning_outcome_index)),
                        ..old(self)@
                    })
                    &&& final(self)@.wf()
                    &&& *final(ai_resolver) == (AIResolver {
                        resolution_count: (old(ai_resolver).resolution_count + 1) as u64,
                        ..*old(ai_resolver)
                    })
                },
                Err(error) => {
                    &&& book_oracle_rejection(
                        old(self)@,
                        *old(ai_resolver),
                        resolver_authority,
                        winning_outcome_index,
                        ai_confidence_score,
                        current_time,
                    ) == Some(error)
                    &&& *final(self) == *old(self)
                    &&& *final(ai_resolver) == *old(ai_resolver)
                },
            },
    {
        if self.closed {
            return Err(ErrorCode::MarketClosed);
        }
        resolve_market_via_ai(
            &mut self.market,
            ai_resolver,
            resolver_authority,
            winning_outcome_index,
            ai_confidence_score,
            current_time,
        )
    }

    /// Resolves the market on the word of the administrator.
    pub fn resolve_by_admin(
        &mut self,
        signer: Identity,
        admin: Identity,
        winning_outcome_index: Option<u8>,
    ) -> (result: Result<(), ErrorCode>)
        requires
            old(self)@.wf(),
        ensures
            match result {
                Ok(()) => {
                    &&& book_admin_resolution_rejection(
                        old(self)@,
                        signer,
                        admin,
                        winning_outcome_index,
                    ) is None
                    &&& final(self)@ == (MarketBookView {
                        market: old(self)@.market.resolved_to(winning_outcome_index),
                        ..old(self)@
                    })
                    &&& final(self)@.wf()
                },
                Err(error) => {
                    &&& book_admin_resolution_rejection(
                        old(self)@,
                        signer,
                        admin,
                        winning_outcome_index,
                    ) == Some(error)
                    &&& *final(self) == *old(self)
                },
            },
    {
        if self.closed {
            return Err(ErrorCode::MarketClosed);
        }
        resolve_market(&mut self.market, signer, admin, winning_outcome_index)
    }

    /// Gives the market's record up once the administrator asks for it,
    /// the market is resolved and its settlement vault, which holds
    /// `vault_balance`, is empty.
    pub fn close(
        &mut self,
        signer: Identity,
        admin: Identity,
        vault_balance: u64,
    ) -> (result: Result<(), ErrorCode>)
        requires
            old(self)@.wf(),
        ensures
            match result {
                Ok(()) => {
                    &&& book_closing_rejection(old(self)@, signer, admin, vault_balance) is None
                    &&& final(self)@ == (MarketBookView { closed: true, ..old(self)@ })
                    &&& final(self)@.wf()
                },
                Err(error) => {
                    &&& book_closing_rejection(old(self)@, signer, admin, vault_balance) == Some(
                        error,
                    )
                    &&& *final(self) == *old(self)
                },
            },
    {
        if self.closed {
            return Err(ErrorCode::MarketClosed);
        }
        match close_market(&self.market, signer, admin, vault_balance) {
            Ok(()) => {},
            Err(error) => {
                return Err(error);
            },
        }
        self.closed = true;
        Ok(())
    }
}

/// The book after the prediction of `user` was marked as claimed.
pub open spec fn book_after_claim(book: MarketBookView, user: Identity) -> MarketBookView {
    let position = position_of_prediction(book.predictions, user);
    MarketBookView {
        predictions: book.predictions.update(
            position,
            Prediction { claimed: true, ..book.predictions[position] },
        ),
        ..book
    }
}

/// In a well-formed book a reward is claimed exactly once: after a claim
/// of `user` has succeeded, every further claim of `user` is rejected
/// because the reward was already claimed, whenever it is made and
/// whatever else has happened to the profiles that go with it.
pub proof fn lemma_book_claim_exactly_once(
    book: MarketBookView,
    user_profile: Option<UserProfile>,
    creator_profile: Option<CreatorProfile>,
    user: Identity,
    later_user_profile: Option<UserProfile>,
    later_creator_profile: Option<CreatorProfile>,
)
    requires
        book.wf(),
        book_claim_rejection(book, user_profile, creator_profile, user) is None,
        later_user_profile matches Some(profile) ==> profile.user == user,
        later_creator_profile matches Some(profile) ==> profile.creator == book.market.creator,
    ensures
        book_after_claim(book, user).wf(),
        book_claim_rejection(
            book_after_claim(book, user),
            later_user_profile,
            later_creator_profile,
            user,
        ) == Some(ErrorCode::RewardAlreadyClaimed),
{
    let position = position_of_prediction(book.predictions, user);
    let claimed = Prediction { claimed: true, ..book.predictions[position] };
    let after = book_after_claim(book, user);
    // The claimed prediction is still the one that `user` holds.
    assert(after.predictions[position].user == user);
    // Marking it as claimed moves no stake.
    assert forall|other: u8| after.market.has_outcome(other) implies #[trigger] staked_on(
        after.predictions,
        other,
    ) == after.market.stakes_per_outcome[other as int] by {
        lemma_staked_on_update(book.predictions, position, claimed, other);
    }
    lemma_staked_on_update(book.predictions, position, claimed, 0);
}

/// A finalized tally is terminal: in a well-formed book whose tally is
/// finalized, every vote, proposal, challenge and finalization is
/// rejected.
pub proof fn lemma_finalized_is_terminal(
    book: MarketBookView,
    who: Identity,
    outcome_index: u8,
    current_time: i64,
)
    requires
        book.wf(),
        book.vote_result matches Some(tally) && tally.finalized,
    ensures
        book_vote_rejection(book, who, outcome_index, current_time) is Some,
        book_weighted_vote_rejection(book, who, outcome_index, current_time) is Some,
        book_proposal_rejection(book, who, outcome_index, current_time) is Some,
        book_challenge_rejection(book, current_time) is Some,
        book_finalization_rejection(book, current_time) is Some,
{
}

/// A closed book is terminal: every operation on it is rejected because
/// the market is closed.
pub proof fn lemma_closed_is_terminal(
    book: MarketBookView,
    creator_profile: CreatorProfile,
    user_profile: Option<UserProfile>,
    claiming_creator_profile: Option<CreatorProfile>,
    ai_resolver: AIResolver,
    ai_confidence_score: Score,
    who: Identity,
    admin: Identity,
    outcome_index: u8,
    admin_outcome: Option<u8>,
    amount: u64,
    weight: u8,
    vault_balance: u64,
    current_time: i64,
)
    requires
        book.closed,
    ensures
        book_stake_rejection(
            book,
            creator_profile,
            user_profile,
            who,
            outcome_index,
            amount,
            current_time,
        ) == Some(ErrorCode::MarketClosed),
        book_claim_rejection(book, user_profile, claiming_creator_profile, who) == Some(
            ErrorCode::MarketClosed,
        ),
        book_open_voting_rejection(book, current_time) == Some(ErrorCode::MarketClosed),
        book_vote_rejection(book, who, outcome_index, current_time) == Some(
            ErrorCode::MarketClosed,
        ),
        book_weighted_vote_rejection(book, who, outcome_index, current_time) == Some(
            ErrorCode::MarketClosed,
        ),
        book_registration_rejection(book, who, admin, who, weight) == Some(
            ErrorCode::MarketClosed,
        ),
        book_proposal_rejection(book, who, outcome_index, current_time) == Some(
            ErrorCode::MarketClosed,
        ),
        book_challenge_rejection(book, current_time) == Some(ErrorCode::MarketClosed),
        book_finalization_rejection(book, current_time) == Some(ErrorCode::MarketClosed),
        book_oracle_rejection(
            book,
            ai_resolver,
            who,
            outcome_index,
            ai_confidence_score,
            current_time,
        ) == Some(ErrorCode::MarketClosed),
        book_admin_resolution_rejection(book, who, admin, admin_outcome) == Some(
            ErrorCode::MarketClosed,
        ),
        book_closing_rejection(book, who, admin, vault_balance) == Some(ErrorCode::MarketClosed),
{
}

/// The governance of a market moves through its phases in order. In a
/// well-formed book that is not closed, and as long as the clock has not
/// run back behind a standing proposal, a tally is opened only where there
/// is none, a stake-weighted vote is taken only while voting is open, a
/// proposal only once voting is over, and a challenge or a finalization
/// only while a proposal is pending. A proposal leaves a pending proposal
/// behind, and a finalization a final resolution.
pub proof fn lemma_governance_moves_in_order(
    book: MarketBookView,
    who: Identity,
    outcome_index: u8,
    current_time: i64,
)
    requires
        book.wf(),
        book.vote_result matches Some(tally) ==> (tally.resolution_proposed ==> current_time
            >= tally.proposal_time),
    ensures
        book_open_voting_rejection(book, current_time) is None ==> book.governance_phase(
            current_time,
        ) == GovernancePhase::Uninitialized,
        book_weighted_vote_rejection(book, who, outcome_index, current_time) is None
            ==> book.governance_phase(current_time) == GovernancePhase::VotingOpen,
        book_proposal_rejection(book, who, outcome_index, current_time) is None ==> {
            &&& book.governance_phase(current_time) == GovernancePhase::AwaitingProposal
                || book.governance_phase(current_time) == GovernancePhase::ProposalPending
            &&& governance_phase(
                book.market,
                Some(book.vote_result->Some_0.with_proposal(outcome_index, current_time)),
                current_time,
            ) == GovernancePhase::ProposalPending
        },
        book_challenge_rejection(book, current_time) is None ==> book.governance_phase(
            current_time,
        ) == GovernancePhase::ProposalPending,
        book_finalization_rejection(book, current_time) is None ==> {
            &&& book.governance_phase(current_time) == GovernancePhase::ProposalPending
            &&& governance_phase(
                book.market,
                Some(book.vote_result->Some_0.finalized_tally()),
                current_time,
            ) == GovernancePhase::Finalized
        },
{
}

/// What the predictions on `outcome_index` are entitled to before fees,
/// all together, when that outcome wins a pool of `total_pool` with
/// `total_winning_stakes` staked on it.
pub open spec fn shares_on(
    predictions: Seq<Prediction>,
    outcome_index: u8,
    total_pool: nat,
    total_winning_stakes: nat,
) -> nat
    decreases predictions.len(),
{
    if predictions.len() == 0 {
        0
    } else if predictions.last().outcome_index == outcome_index {
        shares_on(predictions.drop_last(), outcome_index, total_pool, total_winning_stakes)
            + user_share(predictions.last().amount as nat, total_pool, total_winning_stakes)
    } else {
        shares_on(predictions.drop_last(), outcome_index, total_pool, total_winning_stakes)
    }
}

/// No prediction stakes more than all predictions on its outcome together.
pub proof fn lemma_prediction_within_stakes(predictions: Seq<Prediction>, index: int)
    requires
        0 <= index < predictions.len(),
    ensures
        predictions[index].amount <= staked_on(predictions, predictions[index].outcome_index),
    decreases predictions.len(),
{
    if index < predictions.len() - 1 {
        lemma_prediction_within_stakes(predictions.drop_last(), index);
    }
}

/// The shares of some predictions, taken times the winning stakes, do not
/// exceed what these predictions stake, taken times the pool: rounding
/// down only ever loses.
pub proof fn lemma_shares_within_stakes(
    predictions: Seq<Prediction>,
    outcome_index: u8,
    total_pool: nat,
    total_winning_stakes: nat,
)
    requires
        total_winning_stakes > 0,
    ensures
        shares_on(predictions, outcome_index, total_pool, total_winning_stakes)
            * total_winning_stakes <= staked_on(predictions, outcome_index) * total_pool,
    decreases predictions.len(),
{
    if predictions.len() > 0 {
        let rest = predictions.drop_last();
        lemma_shares_within_stakes(rest, outcome_index, total_pool, total_winning_stakes);
        if predictions.last().outcome_index == outcome_index {
            let stake = predictions.last().amount as nat;
            let share = user_share(stake, total_pool, total_winning_stakes);
            let shares = shares_on(rest, outcome_index, total_pool, total_winning_stakes);
            let staked = staked_on(rest, outcome_index);
            assert(share * total_winning_stakes <= stake * total_pool) by {
                vstd::arithmetic::div_mod::lemma_fundamental_div_mod(
                    (stake * total_pool) as int,
                    total_winning_stakes as int,
                );
                vstd::arithmetic::div_mod::lemma_mod_bound(
                    (stake * total_pool) as int,
                    total_winning_stakes as int,
                );
                assert(share * total_winning_stakes == total_winning_stakes * share)
                    by (nonlinear_arith);
            }
            assert((shares + share) * total_winning_stakes <= (staked + stake) * total_pool)
                by (nonlinear_arith)
                requires
                    shares * total_winning_stakes <= staked * total_pool,
                    share * total_winning_stakes <= stake * total_pool,
            ;
        }
    } else {
        assert(0 * total_winning_stakes <= 0 * total_pool) by (nonlinear_arith);
    }
}

/// The vault is never overdrawn. In a well-formed book whose market was
/// resolved to an outcome that something was staked on, the shares of all
/// winning predictions together do not exceed the pool. What rounding
/// leaves over stays in the vault.
pub proof fn lemma_shares_within_pool(book: MarketBookView)
    requires
        book.wf(),
        book.market.winning_outcome matches Some(winner) && book.market.has_outcome(winner),
        winning_stakes(book.market) > 0,
    ensures
        shares_on(
            book.predictions,
            book.market.winning_outcome->Some_0,
            book.market.total_pool as nat,
            winning_stakes(book.market) as nat,
        ) <= book.market.total_pool,
{
    let winner = book.market.winning_outcome->Some_0;
    let pool = book.market.total_pool as nat;
    let winning = winning_stakes(book.market) as nat;
    let shares = shares_on(book.predictions, winner, pool, winning);
    lemma_shares_within_stakes(book.predictions, winner, pool, winning);
    assert(staked_on(book.predictions, winner) == winning);
    assert(shares <= pool) by (nonlinear_arith)
        requires
            shares * winning <= winning * pool,
            winning > 0,
    ;
}

/// A winner is paid. In a well-formed book whose market was resolved to
/// an outcome that something was staked on, and whose fees together do not
/// exceed the whole, the settlement of every winning prediction succeeds.
pub proof fn lemma_winner_is_settled(book: MarketBookView, index: int)
    requires
        book.wf(),
        0 <= index < book.predictions.len(),
        book.market.winning_outcome == Some(book.predictions[index].outcome_index),
        winning_stakes(book.market) > 0,
        book.market.creator_fee_bps + book.market.protocol_fee_bps <= 10_000,
    ensures
        claim_settlement(book.market, book.predictions[index]) is Ok,
{
    let prediction = book.predictions[index];
    let winner = prediction.outcome_index;
    assert(book.market.has_outcome(winner));
    lemma_prediction_within_stakes(book.predictions, index);
    assert(staked_on(book.predictions, winner) == book.market.stakes_per_outcome[winner as int]);
    lemma_amount_within_sum(book.market.stakes_per_outcome, winner as int);
    lemma_settlement_succeeds(
        prediction.amount,
        book.market.total_pool,
        winning_stakes(book.market),
        book.market.creator_fee_bps,
        book.market.protocol_fee_bps,
    );
}

} // verus!
