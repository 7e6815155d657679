//! Stake-weighted governance of open-ended markets: votes, proposals,
//! challenges and the final resolution.

use vstd::prelude::*;
use crate::error::ErrorCode;
use crate::identity::Identity;
use crate::market::{zero_amounts, Market, MarketType, MarketView, MAX_OUTCOMES};
use crate::records::{OutcomeVote, Prediction};

verus! {

/// How long votes are taken after a market's deadline: fifteen days.
pub const VOTING_PERIOD_SECONDS: i64 = 1_296_000;

/// How long a proposal can be challenged: forty-eight hours.
pub const CHALLENGE_PERIOD_SECONDS: i64 = 172_800;

/// The lowest weight a vote authority can have.
pub const MIN_AUTHORITY_WEIGHT: u8 = 1;

/// The highest weight a vote authority can have.
pub const MAX_AUTHORITY_WEIGHT: u8 = 5;

/// The tally of an open-ended market's governance.
#[derive(Clone, Debug)]
pub struct VoteResult {
    pub market: Identity,
    /// The number of votes for each outcome.
    pub vote_tallies: Vec<u64>,
    /// The stake behind the votes for each outcome.
    pub stake_weights: Vec<u64>,
    pub vote_count: u64,
    pub resolution_proposed: bool,
    pub proposed_outcome: Option<u8>,
    pub proposal_time: i64,
    pub challenge_count: u8,
    pub finalized: bool,
    pub bump: u8,
}

/// What a tally holds, as mathematical values.
pub struct VoteResultView {
    pub market: Identity,
    pub vote_tallies: Seq<u64>,
    pub stake_weights: Seq<u64>,
    pub vote_count: u64,
    pub resolution_proposed: bool,
    pub proposed_outcome: Option<u8>,
    pub proposal_time: i64,
    pub challenge_count: u8,
    pub finalized: bool,
    pub bump: u8,
}

impl View for VoteResult {
    type V = VoteResultView;

    open spec fn view(&self) -> VoteResultView {
        VoteResultView {
            market: self.market,
            vote_tallies: self.vote_tallies@,
            stake_weights: self.stake_weights@,
            vote_count: self.vote_count,
            resolution_proposed: self.resolution_proposed,
            proposed_outcome: self.proposed_outcome,
            proposal_time: self.proposal_time,
            challenge_count: self.challenge_count,
            finalized: self.finalized,
            bump: self.bump,
        }
    }
}

/// An authority registered to propose the resolution of one market.
#[derive(Clone, Copy, PartialEq, Eq, Structural, Debug)]
pub struct VoteAuthority {
    pub market: Identity,
    pub authority: Identity,
    pub weight: u8,
    pub has_voted: bool,
    pub vote: Option<u8>,
    pub bump: u8,
}

/// What a proposal did to the tally.
#[derive(Clone, Copy, PartialEq, Eq, Structural, Debug)]
pub enum ProposalEffect {
    /// It is the first proposal and now stands.
    Proposed,
    /// It names the outcome that is already proposed.
    Confirmed,
    /// It names another outcome than the one proposed and counts as a challenge.
    Challenged,
}

/// Where the governance of a market stands.
#[derive(Clone, Copy, PartialEq, Eq, Structural, Debug)]
pub enum GovernancePhase {
    /// No tally was opened yet.
    Uninitialized,
    /// Votes are taken.
    VotingOpen,
    /// The voting period is over and nobody has proposed an outcome.
    AwaitingProposal,
    /// A proposal stands and can be challenged or, later, finalized.
    ProposalPending,
    /// The resolution is final.
    Finalized,
}

/// Whether `index` is the leading outcome of `weights`: it holds the
/// greatest weight, and every outcome before it holds less.
pub open spec fn is_leading(weights: Seq<u64>, index: int) -> bool {
    &&& 0 <= index < weights.len()
    &&& forall|j: int| 0 <= j < weights.len() ==> weights[j] <= weights[index]
    &&& forall|j: int| 0 <= j < index ==> weights[j] < weights[index]
}

/// The leading outcome of `weights`: the lowest index among those with
/// the greatest weight, and 0 where there is no weight at all.
pub open spec fn leading_outcome(weights: Seq<u64>) -> int {
    if weights.len() == 0 {
        0
    } else {
        choose|index: int| is_leading(weights, index)
    }
}

/// There is one leading outcome at most.
pub proof fn lemma_leading_is_unique(weights: Seq<u64>, first: int, second: int)
    requires
        is_leading(weights, first),
        is_leading(weights, second),
    ensures
        first == second,
{
    if first < second {
        assert(weights[second] <= weights[first]);
    } else if second < first {
        assert(weights[first] <= weights[second]);
    }
}

impl VoteResultView {
    /// A tally is well formed when it has a vote count and a stake weight
    /// for each of at most five outcomes.
    pub open spec fn wf(self) -> bool {
        &&& self.vote_tallies.len() == self.stake_weights.len()
        &&& self.stake_weights.len() <= MAX_OUTCOMES
    }

    /// Whether the tally has an entry for each outcome of `market`.
    pub open spec fn wf_for(self, market: MarketView) -> bool {
        &&& self.wf()
        &&& self.stake_weights.len() == market.outcomes.len()
    }

    /// The tally after one vote for `outcome_index` backed by `stake`.
    pub open spec fn with_vote(self, outcome_index: u8, stake: u64) -> VoteResultView
        recommends
            (outcome_index as int) < self.vote_tallies.len(),
            (outcome_index as int) < self.stake_weights.len(),
    {
        VoteResultView {
            vote_tallies: self.vote_tallies.update(
                outcome_index as int,
                (self.vote_tallies[outcome_index as int] + 1) as u64,
            ),
            stake_weights: self.stake_weights.update(
                outcome_index as int,
                (self.stake_weights[outcome_index as int] + stake) as u64,
            ),
            vote_count: (self.vote_count + 1) as u64,
            ..self
        }
    }

    /// What a proposal of `outcome_index` does to the tally.
    pub open spec fn proposal_effect(self, outcome_index: u8) -> ProposalEffect {
        if !self.resolution_proposed {
            ProposalEffect::Proposed
        } else if self.proposed_outcome == Some(outcome_index) {
            ProposalEffect::Confirmed
        } else {
            ProposalEffect::Challenged
        }
    }

    /// The tally after a proposal of `outcome_index` at `current_time`: the
    /// first proposal stands, one that names the proposed outcome changes
    /// nothing, and one that names another outcome counts as a challenge.
    pub open spec fn with_proposal(self, outcome_index: u8, current_time: i64) -> VoteResultView {
        match self.proposal_effect(outcome_index) {
            ProposalEffect::Proposed => VoteResultView {
                resolution_proposed: true,
                proposed_outcome: Some(outcome_index),
                proposal_time: current_time,
                ..self
            },
            ProposalEffect::Confirmed => self,
            ProposalEffect::Challenged => VoteResultView {
                challenge_count: (self.challenge_count + 1) as u8,
                ..self
            },
        }
    }

    /// The outcome a finalization settles on: the proposed one where nobody
    /// challenged it, else the leading outcome of the stake weights.
    pub open spec fn final_outcome(self) -> Option<u8> {
        if self.challenge_count > 0 {
            Some(leading_outcome(self.stake_weights) as u8)
        } else {
            self.proposed_outcome
        }
    }

    /// The tally after its finalization.
    pub open spec fn finalized_tally(self) -> VoteResultView {
        VoteResultView { proposed_outcome: self.final_outcome(), finalized: true, ..self }
    }
}

impl VoteResult {
    /// Whether the tally is well formed.
    pub fn is_well_formed(&self) -> (ok: bool)
        ensures
            ok == self@.wf(),
    {
        self.vote_tallies.len() == self.stake_weights.len() && self.stake_weights.len()
            <= MAX_OUTCOMES
    }

    /// Whether the tally is well formed and has an entry for each outcome
    /// of `market`.
    pub fn is_well_formed_for(&self, market: &Market) -> (ok: bool)
        ensures
            ok == self@.wf_for(market@),
    {
        self.is_well_formed() && self.stake_weights.len() == market.outcomes.len()
    }
}

/// The leading outcome of `weights`.
pub fn find_leading_outcome(weights: &Vec<u64>) -> (index: usize)
    ensures
        index == leading_outcome(weights@),
        weights@.len() == 0 ==> index == 0,
        weights@.len() > 0 ==> is_leading(weights@, index as int),
{
    let mut max_stake: u64 = 0;
    let mut winning_index: usize = 0;
    let mut i: usize = 0;
    while i < weights.len()
        invariant
            i <= weights.len(),
            i == 0 ==> winning_index == 0 && max_stake == 0,
            i > 0 ==> winning_index < i && max_stake == weights[winning_index as int],
            forall|j: int| 0 <= j < i ==> weights[j] <= max_stake,
            forall|j: int| 0 <= j < winning_index ==> weights[j] < max_stake,
        decreases weights.len() - i,
    {
        if weights[i] > max_stake {
            max_stake = weights[i];
            winning_index = i;
        }
        i = i + 1;
    }
    proof {
        if weights@.len() > 0 {
            lemma_leading_is_unique(
                weights@,
                winning_index as int,
                leading_outcome(weights@),
            );
        }
    }
    winning_index
}

/// The last moment at which votes are taken, where it is in range.
pub open spec fn voting_deadline(market: MarketView) -> int {
    market.deadline + VOTING_PERIOD_SECONDS
}

/// The last moment at which a proposal can be challenged, where it is in
/// range.
pub open spec fn challenge_deadline(vote_result: VoteResultView) -> int {
    vote_result.proposal_time + CHALLENGE_PERIOD_SECONDS
}

/// Where the governance of `market` stands at `current_time`, given its
/// tally, if one was opened.
pub open spec fn governance_phase(
    market: MarketView,
    vote_result: Option<VoteResultView>,
    current_time: i64,
) -> GovernancePhase {
    match vote_result {
        None => GovernancePhase::Uninitialized,
        Some(tally) => if tally.finalized {
            GovernancePhase::Finalized
        } else if tally.resolution_proposed {
            GovernancePhase::ProposalPending
        } else if current_time <= voting_deadline(market) {
            GovernancePhase::VotingOpen
        } else {
            GovernancePhase::AwaitingProposal
        },
    }
}

/// Why a tally cannot be opened for `market` at `current_time`, or `None`
/// where it can.
pub open spec fn vote_result_rejection(market: MarketView, current_time: i64) -> Option<
    ErrorCode,
> {
    if market.market_type != MarketType::OpenEnded {
        Some(ErrorCode::NotOpenEndedMarket)
    } else if current_time < market.deadline {
        Some(ErrorCode::VotingNotStarted)
    } else {
        None
    }
}

/// The tally a market's governance starts with: no votes, no proposal.
pub open spec fn fresh_vote_result(market: MarketView, bump: u8) -> VoteResultView {
    VoteResultView {
        market: market.key,
        vote_tallies: Seq::new(market.outcomes.len(), |i: int| 0u64),
        stake_weights: Seq::new(market.outcomes.len(), |i: int| 0u64),
        vote_count: 0,
        resolution_proposed: false,
        proposed_outcome: None,
        proposal_time: 0,
        challenge_count: 0,
        finalized: false,
        bump,
    }
}

/// Opens the tally of an open-ended market once its deadline has passed.
pub fn initialize_vote_result(market: &Market, current_time: i64, bump: u8) -> (result: Result<
    VoteResult,
    ErrorCode,
>)
    ensures
        match result {
            Ok(vote_result) => {
                &&& vote_result_rejection(market@, current_time) is None
                &&& vote_result@ == fresh_vote_result(market@, bump)
                &&& market@.outcomes.len() <= MAX_OUTCOMES ==> vote_result@.wf_for(market@)
            },
            Err(error) => vote_result_rejection(market@, current_time) == Some(error),
        },
{
    if market.market_type != MarketType::OpenEnded {
        return Err(ErrorCode::NotOpenEndedMarket);
    }
    if current_time < market.deadline {
        return Err(ErrorCode::VotingNotStarted);
    }
    Ok(
        VoteResult {
            market: market.key,
            vote_tallies: zero_amounts(market.outcomes.len()),
            stake_weights: zero_amounts(market.outcomes.len()),
            vote_count: 0,
            resolution_proposed: false,
            proposed_outcome: None,
            proposal_time: 0,
            challenge_count: 0,
            finalized: false,
            bump,
        },
    )
}

/// Why an authority cannot be registered, or `None` where it can. The
/// conditions are tested in the order written.
pub open spec fn registration_rejection(
    market: MarketView,
    signer: Identity,
    admin: Identity,
    weight: u8,
) -> Option<ErrorCode> {
    if signer != admin {
        Some(ErrorCode::Unauthorized)
    } else if !(MIN_AUTHORITY_WEIGHT <= weight <= MAX_AUTHORITY_WEIGHT) {
        Some(ErrorCode::InvalidWeight)
    } else if market.market_type != MarketType::OpenEnded {
        Some(ErrorCode::NotOpenEndedMarket)
    } else {
        None
    }
}

/// Registers `authority` with `weight` for the governance of `market`.
///
/// Only the administrator registers authorities: `signer` is who asks,
/// `admin` is who the host recognizes as administrator. An authority is
/// registered once for a market: whoever keeps the records turns a second
/// registration away, as [`crate::book::MarketBook::register_authority`]
/// does.
pub fn register_vote_authority(
    market: &Market,
    signer: Identity,
    admin: Identity,
    authority: Identity,
    weight: u8,
    bump: u8,
) -> (result: Result<VoteAuthority, ErrorCode>)
    ensures
        match result {
            Ok(vote_authority) => {
                &&& registration_rejection(market@, signer, admin, weight) is None
                &&& vote_authority == (VoteAuthority {
                    market: market@.key,
                    authority,
                    weight,
                    has_voted: false,
                    vote: None,
                    bump,
                })
            },
            Err(error) => registration_rejection(market@, signer, admin, weight) == Some(error),
        },
{
    if signer != admin {
        return Err(ErrorCode::Unauthorized);
    }
    if weight < MIN_AUTHORITY_WEIGHT || weight > MAX_AUTHORITY_WEIGHT {
        return Err(ErrorCode::InvalidWeight);
    }
    if market.market_type != MarketType::OpenEnded {
        return Err(ErrorCode::NotOpenEndedMarket);
    }
    Ok(
        VoteAuthority {
            market: market.key,
            authority,
            weight,
            has_voted: false,
            vote: None,
            bump,
        },
    )
}

/// Why a plain vote is rejected, or `None` where it is taken. The
/// conditions are tested in the order written.
pub open spec fn vote_rejection(market: MarketView, outcome_index: u8, current_time: i64)
    -> Option<ErrorCode> {
    if market.market_type != MarketType::OpenEnded {
        Some(ErrorCode::NotOpenEndedMarket)
    } else if market.resolved {
        Some(ErrorCode::MarketAlreadyResolved)
    } else if voting_deadline(market) > i64::MAX {
        Some(ErrorCode::ArithmeticOverflow)
    } else if current_time < market.deadline {
        Some(ErrorCode::VotingNotStarted)
    } else if current_time > voting_deadline(market) {
        Some(ErrorCode::VotingPeriodEnded)
    } else if !market.has_outcome(outcome_index) {
        Some(ErrorCode::InvalidOutcomeIndex)
    } else {
        None
    }
}

/// Records a vote of `voter` for `outcome_index` that no stake backs.
///
/// The vote is taken on an unresolved open-ended market, from its deadline
/// until fifteen days later, for one of its outcomes.
pub fn vote_market_outcome(
    market: &Market,
    voter: Identity,
    outcome_index: u8,
    current_time: i64,
    bump: u8,
) -> (result: Result<OutcomeVote, ErrorCode>)
    ensures
        match result {
            Ok(vote) => {
                &&& vote_rejection(market@, outcome_index, current_time) is None
                &&& vote == (OutcomeVote { market: market@.key, voter, outcome_index, bump })
            },
            Err(error) => vote_rejection(market@, outcome_index, current_time) == Some(error),
        },
{
    if market.market_type != MarketType::OpenEnded {
        return Err(ErrorCode::NotOpenEndedMarket);
    }
    if market.resolved {
        return Err(ErrorCode::MarketAlreadyResolved);
    }
    let voting_deadline: i64 = match market.deadline.checked_add(VOTING_PERIOD_SECONDS) {
        Some(deadline) => deadline,
        None => {
            return Err(ErrorCode::ArithmeticOverflow);
        },
    };
    if current_time < market.deadline {
        return Err(ErrorCode::VotingNotStarted);
    }
    if current_time > voting_deadline {
        return Err(ErrorCode::VotingPeriodEnded);
    }
    if (outcome_index as usize) >= market.outcomes.len() {
        return Err(ErrorCode::InvalidOutcomeIndex);
    }
    Ok(OutcomeVote { market: market.key, voter, outcome_index, bump })
}

/// Why a stake-weighted vote is rejected, or `None` where it is taken.
/// The conditions are tested in the order written. A voter without a
/// prediction has no stake to vote with.
pub open spec fn weighted_vote_rejection(
    market: MarketView,
    vote_result: VoteResultView,
    prediction: Option<Prediction>,
    voter: Identity,
    outcome_index: u8,
    current_time: i64,
) -> Option<ErrorCode> {
    if vote_result.market != market.key {
        Some(ErrorCode::Unauthorized)
    } else if market.market_type != MarketType::OpenEnded {
        Some(ErrorCode::NotOpenEndedMarket)
    } else if market.resolved {
        Some(ErrorCode::MarketAlreadyResolved)
    } else if prediction is None {
        Some(ErrorCode::InsufficientStake)
    } else if prediction->Some_0.user != voter || prediction->Some_0.market != market.key {
        Some(ErrorCode::Unauthorized)
    } else if prediction->Some_0.amount == 0 {
        Some(ErrorCode::InsufficientStake)
    } else if voting_deadline(market) > i64::MAX {
        Some(ErrorCode::ArithmeticOverflow)
    } else if current_time < market.deadline {
        Some(ErrorCode::VotingNotStarted)
    } else if current_time > voting_deadline(market) {
        Some(ErrorCode::VotingPeriodEnded)
    } else if !market.has_outcome(outcome_index) {
        Some(ErrorCode::InvalidOutcomeIndex)
    } else if vote_result.vote_tallies[outcome_index as int] + 1 > u64::MAX
        || vote_result.stake_weights[outcome_index as int] + prediction->Some_0.amount > u64::MAX
        || vote_result.vote_count + 1 > u64::MAX {
        Some(ErrorCode::ArithmeticOverflow)
    } else {
        None
    }
}

/// Records a vote of `voter` for `outcome_index`, weighted by the stake of
/// the voter's prediction on the market.
///
/// The vote is taken on an unresolved open-ended market, from its deadline
/// until fifteen days later, for one of its outcomes, from a voter whose
/// prediction on this market holds a stake. It adds one to the outcome's
/// vote count and to the number of votes, and the stake to the outcome's
/// stake weight. A vote that is rejected changes nothing.
///
/// A voter votes once on a market: whoever keeps the records turns a second
/// vote away, as [`crate::book::MarketBook::weighted_vote`] does.
///
/// The tally has to be well formed for the market, which
/// [`VoteResult::is_well_formed_for`] tests.
pub fn stake_weighted_vote(
    market: &Market,
    vote_result: &mut VoteResult,
    prediction: Option<Prediction>,
    voter: Identity,
    outcome_index: u8,
    current_time: i64,
    bump: u8,
) -> (result: Result<OutcomeVote, ErrorCode>)
    requires
        old(vote_result)@.wf_for(market@),
    ensures
        match result {
            Ok(vote) => {
                &&& weighted_vote_rejection(
                    market@,
                    old(vote_result)@,
                    prediction,
                    voter,
                    outcome_index,
                    current_time,
                ) is None
                &&& vote == (OutcomeVote { market: market@.key, voter, outcome_index, bump })
                &&& final(vote_result)@ == old(vote_result)@.with_vote(
                    outcome_index,
                    prediction->Some_0.amount,
                )
                &&& final(vote_result)@.wf_for(market@)
            },
            Err(error) => {
                &&& weighted_vote_rejection(
                    market@,
                    old(vote_result)@,
                    prediction,
                    voter,
                    outcome_index,
                    current_time,
                ) == Some(error)
                &&& *final(vote_result) == *old(vote_result)
            },
        },
{
    if vote_result.market != market.key {
        return Err(ErrorCode::Unauthorized);
    }
    if market.market_type != MarketType::OpenEnded {
        return Err(ErrorCode::NotOpenEndedMarket);
    }
    if market.resolved {
        return Err(ErrorCode::MarketAlreadyResolved);
    }
    let stake: u64 = match prediction {
        Some(held) => {
            if held.user != voter || held.market != market.key {
                return Err(ErrorCode::Unauthorized);
            }
            held.amount
        },
        None => {
            return Err(ErrorCode::InsufficientStake);
        },
    };
    if stake == 0 {
        return Err(ErrorCode::InsufficientStake);
    }
    let voting_deadline: i64 = match market.deadline.checked_add(VOTING_PERIOD_SECONDS) {
        Some(deadline) => deadline,
        None => {
            return Err(ErrorCode::ArithmeticOverflow);
        },
    };
    if current_time < market.deadline {
        return Err(ErrorCode::VotingNotStarted);
    }
    if current_time > voting_deadline {
        return Err(ErrorCode::VotingPeriodEnded);
    }
    if (outcome_index as usize) >= market.outcomes.len() {
        return Err(ErrorCode::InvalidOutcomeIndex);
    }
    let index: usize = outcome_index as usize;
    let tally: u64 = match vote_result.vote_tallies[index].checked_add(1) {
        Some(tally) => tally,
        None => {
            return Err(ErrorCode::ArithmeticOverflow);
        },
    };
    let weight: u64 = match vote_result.stake_weights[index].checked_add(stake) {
        Some(weight) => weight,
        None => {
            return Err(ErrorCode::ArithmeticOverflow);
        },
    };
    let vote_count: u64 = match vote_result.vote_count.checked_add(1) {
        Some(count) => count,
        None => {
            return Err(ErrorCode::ArithmeticOverflow);
        },
    };
    vote_result.vote_tallies.set(index, tally);
    vote_result.stake_weights.set(index, weight);
    vote_result.vote_count = vote_count;
    Ok(OutcomeVote { market: market.key, voter, outcome_index, bump })
}

/// Why a proposal is rejected, or `None` where it is taken. The
/// conditions are tested in the order written.
pub open spec fn proposal_rejection(
    market: MarketView,
    vote_result: VoteResultView,
    vote_authority: VoteAuthority,
    authority: Identity,
    outcome_index: u8,
    current_time: i64,
) -> Option<ErrorCode> {
    if vote_result.market != market.key || vote_authority.market != market.key
        || vote_authority.authority != authority {
        Some(ErrorCode::Unauthorized)
    } else if market.market_type != MarketType::OpenEnded {
        Some(ErrorCode::NotOpenEndedMarket)
    } else if market.resolved {
        Some(ErrorCode::MarketAlreadyResolved)
    } else if voting_deadline(market) > i64::MAX {
        Some(ErrorCode::ArithmeticOverflow)
    } else if current_time <= voting_deadline(market) {
        Some(ErrorCode::VotingNotEnded)
    } else if !market.has_outcome(outcome_index) {
        Some(ErrorCode::InvalidOutcomeIndex)
    } else if vote_result.proposal_effect(outcome_index) == ProposalEffect::Challenged
        && vote_result.challenge_count + 1 > u8::MAX {
        Some(ErrorCode::ArithmeticOverflow)
    } else {
        None
    }
}

/// Takes the proposal of the registered `authority` that `outcome_index`
/// has won.
///
/// The proposal is taken on an unresolved open-ended market once the
/// voting period is over, for one of its outcomes, from the authority
/// that `vote_authority` registers for this market. It marks the
/// authority as having voted for the outcome. The first proposal stands
/// from `current_time` on; a later one that names the same outcome
/// confirms it, and one that names another outcome counts as a challenge.
/// A proposal that is rejected changes nothing.
pub fn propose_resolution(
    market: &Market,
    vote_result: &mut VoteResult,
    vote_authority: &mut VoteAuthority,
    authority: Identity,
    outcome_index: u8,
    current_time: i64,
) -> (result: Result<ProposalEffect, ErrorCode>)
    ensures
        match result {
            Ok(effect) => {
                &&& proposal_rejection(
                    market@,
                    old(vote_result)@,
                    *old(vote_authority),
                    authority,
                    outcome_index,
                    current_time,
                ) is None
                &&& effect == old(vote_result)@.proposal_effect(outcome_index)
                &&& final(vote_result)@ == old(vote_result)@.with_proposal(
                    outcome_index,
                    current_time,
                )
                &&& *final(vote_authority) == (VoteAuthority {
                    has_voted: true,
                    vote: Some(outcome_index),
                    ..*old(vote_authority)
                })
            },
            Err(error) => {
                &&& proposal_rejection(
                    market@,
                    old(vote_result)@,
                    *old(vote_authority),
                    authority,
                    outcome_index,
                    current_time,
                ) == Some(error)
                &&& *final(vote_result) == *old(vote_result)
                &&& *final(vote_authority) == *old(vote_authority)
            },
        },
{
    if vote_result.market != market.key || vote_authority.market != market.key
        || vote_authority.authority != authority {
        return Err(ErrorCode::Unauthorized);
    }
    if market.market_type != MarketType::OpenEnded {
        return Err(ErrorCode::NotOpenEndedMarket);
    }
    if market.resolved {
        return Err(ErrorCode::MarketAlreadyResolved);
    }
    let voting_deadline: i64 = match market.deadline.checked_add(VOTING_PERIOD_SECONDS) {
        Some(deadline) => deadline,
        None => {
            return Err(ErrorCode::ArithmeticOverflow);
        },
    };
    if current_time <= voting_deadline {
        return Err(ErrorCode::VotingNotEnded);
    }
    if (outcome_index as usize) >= market.outcomes.len() {
        return Err(ErrorCode::InvalidOutcomeIndex);
    }
    let effect: ProposalEffect = if !vote_result.resolution_proposed {
        ProposalEffect::Proposed
    } else {
        match vote_result.proposed_outcome {
            Some(proposed) => if proposed == outcome_index {
                ProposalEffect::Confirmed
            } else {
                ProposalEffect::Challenged
            },
            None => ProposalEffect::Challenged,
        }
    };
    match effect {
        ProposalEffect::Proposed => {
            vote_result.resolution_proposed = true;
            vote_result.proposed_outcome = Some(outcome_index);
            vote_result.proposal_time = current_time;
        },
        ProposalEffect::Confirmed => {},
        ProposalEffect::Challenged => {
            let challenge_count: u8 = match vote_result.challenge_count.checked_add(1) {
                Some(count) => count,
                None => {
                    return Err(ErrorCode::ArithmeticOverflow);
                },
            };
            vote_result.challenge_count = challenge_count;
        },
    }
    vote_authority.has_voted = true;
    vote_authority.vote = Some(outcome_index);
    Ok(effect)
}

/// Why a challenge is rejected, or `None` where it is taken. The
/// conditions are tested in the order written.
pub open spec fn challenge_rejection(vote_result: VoteResultView, current_time: i64) -> Option<
    ErrorCode,
> {
    if !vote_result.resolution_proposed {
        Some(ErrorCode::NoProposedResolution)
    } else if vote_result.finalized {
        Some(ErrorCode::ResolutionFinalized)
    } else if challenge_deadline(vote_result) > i64::MAX {
        Some(ErrorCode::ArithmeticOverflow)
    } else if current_time > challenge_deadline(vote_result) {
        Some(ErrorCode::ChallengePeriodEnded)
    } else if vote_result.challenge_count + 1 > u8::MAX {
        Some(ErrorCode::ArithmeticOverflow)
    } else {
        None
    }
}

/// Takes a challenge of the standing proposal and hands back the new
/// number of challenges.
///
/// The challenge is taken while a proposal stands that is not finalized,
/// until forty-eight hours after it was made. A challenge that is rejected
/// changes nothing.
pub fn challenge_resolution(vote_result: &mut VoteResult, current_time: i64) -> (result: Result<
    u8,
    ErrorCode,
>)
    ensures
        match result {
            Ok(challenge_count) => {
                &&& challenge_rejection(old(vote_result)@, current_time) is None
                &&& challenge_count == old(vote_result)@.challenge_count + 1
                &&& final(vote_result)@ == (VoteResultView {
                    challenge_count,
                    ..old(vote_result)@
                })
            },
            Err(error) => {
                &&& challenge_rejection(old(vote_result)@, current_time) == Some(error)
                &&& *final(vote_result) == *old(vote_result)
            },
        },
{
    if !vote_result.resolution_proposed {
        return Err(ErrorCode::NoProposedResolution);
    }
    if vote_result.finalized {
        return Err(ErrorCode::ResolutionFinalized);
    }
    let challenge_deadline: i64 = match vote_result.proposal_time.checked_add(
        CHALLENGE_PERIOD_SECONDS,
    ) {
        Some(deadline) => deadline,
        None => {
            return Err(ErrorCode::ArithmeticOverflow);
        },
    };
    if current_time > challenge_deadline {
        return Err(ErrorCode::ChallengePeriodEnded);
    }
    let challenge_count: u8 = match vote_result.challenge_count.checked_add(1) {
        Some(count) => count,
        None => {
            return Err(ErrorCode::ArithmeticOverflow);
        },
    };
    vote_result.challenge_count = challenge_count;
    Ok(challenge_count)
}

/// Why a finalization is rejected, or `None` where it succeeds. The
/// conditions are tested in the order written.
pub open spec fn finalization_rejection(
    market: MarketView,
    vote_result: VoteResultView,
    current_time: i64,
) -> Option<ErrorCode> {
    if vote_result.market != market.key {
        Some(ErrorCode::Unauthorized)
    } else if market.market_type != MarketType::OpenEnded {
        Some(ErrorCode::NotOpenEndedMarket)
    } else if market.resolved {
        Some(ErrorCode::MarketAlreadyResolved)
    } else if !vote_result.resolution_proposed {
        Some(ErrorCode::NoProposedResolution)
    } else if challenge_deadline(vote_result) > i64::MAX {
        Some(ErrorCode::ArithmeticOverflow)
    } else if current_time <= challenge_deadline(vote_result) {
        Some(ErrorCode::ChallengePeriodActive)
    } else {
        None
    }
}

/// Finalizes the resolution of an open-ended market and hands back the
/// winning outcome.
///
/// The finalization succeeds on an unresolved open-ended market with a
/// standing proposal, once forty-eight hours have passed since it was
/// made. Where nobody challenged the proposal, the proposed outcome wins;
/// else the leading outcome of the stake weights does. The market is then
/// resolved and the tally finalized. A finalization that is rejected
/// changes nothing.
///
/// The tally has to be well formed, which [`VoteResult::is_well_formed`]
/// tests.
pub fn finalize_resolution(market: &mut Market, vote_result: &mut VoteResult, current_time: i64)
    -> (result: Result<Option<u8>, ErrorCode>)
    requires
        old(vote_result)@.wf(),
    ensures
        match result {
            Ok(winning_outcome) => {
                &&& finalization_rejection(old(market)@, old(vote_result)@, current_time) is None
                &&& winning_outcome == old(vote_result)@.final_outcome()
                &&& final(vote_result)@ == old(vote_result)@.finalized_tally()
                &&& final(market)@ == old(market)@.resolved_to(winning_outcome)
            },
            Err(error) => {
                &&& finalization_rejection(old(market)@, old(vote_result)@, current_time) == Some(
                    error,
                )
                &&& *final(market) == *old(market)
                &&& *final(vote_result) == *old(vote_result)
            },
        },
{
    if vote_result.market != market.key {
        return Err(ErrorCode::Unauthorized);
    }
    if market.market_type != MarketType::OpenEnded {
        return Err(ErrorCode::NotOpenEndedMarket);
    }
    if market.resolved {
        return Err(ErrorCode::MarketAlreadyResolved);
    }
    if !vote_result.resolution_proposed {
        return Err(ErrorCode::NoProposedResolution);
    }
    let challenge_deadline: i64 = match vote_result.proposal_time.checked_add(
        CHALLENGE_PERIOD_SECONDS,
    ) {
        Some(deadline) => deadline,
        None => {
            return Err(ErrorCode::ArithmeticOverflow);
        },
    };
    if current_time <= challenge_deadline {
        return Err(ErrorCode::ChallengePeriodActive);
    }
    if vote_result.challenge_count > 0 {
        let winning_index: usize = find_leading_outcome(&vote_result.stake_weights);
        vote_result.proposed_outcome = Some(winning_index as u8);
    }
    let winning_outcome: Option<u8> = vote_result.proposed_outcome;
    market.winning_outcome = winning_outcome;
    market.resolved = true;
    vote_result.finalized = true;
    Ok(winning_outcome)
}

/// The challenge period decides when a finalization succeeds. On an
/// unresolved open-ended market with a standing proposal, a finalization
/// before the challenge period's last moment is rejected because the period
/// is still active, and one after that moment succeeds.
pub proof fn lemma_finalization_waits_for_challenges(
    market: MarketView,
    vote_result: VoteResultView,
    current_time: i64,
)
    requires
        vote_result.market == market.key,
        market.market_type == MarketType::OpenEnded,
        !market.resolved,
        vote_result.resolution_proposed,
        challenge_deadline(vote_result) <= i64::MAX,
    ensures
        current_time < challenge_deadline(vote_result) ==> finalization_rejection(
            market,
            vote_result,
            current_time,
        ) == Some(ErrorCode::ChallengePeriodActive),
        current_time > challenge_deadline(vote_result) ==> finalization_rejection(
            market,
            vote_result,
            current_time,
        ) is None,
{
}

/// Challenges are taken exactly as long as a finalization is not: at no
/// moment can a standing proposal be both challenged and finalized.
pub proof fn lemma_challenge_or_finalize(
    market: MarketView,
    vote_result: VoteResultView,
    current_time: i64,
)
    ensures
        !(challenge_rejection(vote_result, current_time) is None && finalization_rejection(
            market,
            vote_result,
            current_time,
        ) is None),
{
}

} // verus!
