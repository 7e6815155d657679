use prediction_market::book::MarketBook;
use prediction_market::creation::create_market;
use prediction_market::error::ErrorCode;
use prediction_market::governance::{
    GovernancePhase, ProposalEffect, CHALLENGE_PERIOD_SECONDS, VOTING_PERIOD_SECONDS,
};
use prediction_market::identity::Identity;
use prediction_market::lifecycle::MarketPhase;
use prediction_market::market::{Market, MarketType};
use prediction_market::oracle::initialize_ai_resolver;
use prediction_market::profile::{create_creator_profile, CreatorProfile, UserProfile};
use prediction_market::score::Score;

const DEADLINE: i64 = 1_000;
const VOTING_END: i64 = DEADLINE + VOTING_PERIOD_SECONDS;
const ADMIN: u128 = 9;

fn id(n: u128) -> Identity {
    Identity::new(0, n)
}

fn new_market(kind: MarketType, outcomes: usize) -> (Market, CreatorProfile) {
    let mut creator_profile = create_creator_profile(id(1), 3);
    let market = create_market(
        &mut creator_profile,
        id(1),
        id(100),
        String::from("Who wins?"),
        (0..outcomes).map(|i| format!("outcome {}", i)).collect(),
        Score::from_bits(0.9f32.to_bits()),
        DEADLINE,
        kind.code(),
        None,
        None,
        0,
        250,
    )
    .unwrap()
    .market;
    (market, creator_profile)
}

fn new_book(kind: MarketType, outcomes: usize) -> (MarketBook, CreatorProfile) {
    let (market, creator_profile) = new_market(kind, outcomes);
    (MarketBook::new(market).unwrap(), creator_profile)
}

fn stake(book: &mut MarketBook, creator: &mut CreatorProfile, user: u128, outcome: u8, amount: u64) {
    let mut nobody: Option<UserProfile> = None;
    book.stake(creator, &mut nobody, id(user), outcome, amount, 10, 1).unwrap();
}

fn check_ledger(book: &MarketBook) {
    let mut total: u64 = 0;
    for outcome in 0..book.market.outcomes.len() {
        let staked: u64 = book
            .predictions
            .iter()
            .filter(|prediction| prediction.outcome_index as usize == outcome)
            .map(|prediction| prediction.amount)
            .sum();
        assert_eq!(staked, book.market.stakes_per_outcome[outcome]);
        total += staked;
    }
    assert_eq!(total, book.market.total_pool);
    let all: u64 = book.predictions.iter().map(|prediction| prediction.amount).sum();
    assert_eq!(all, book.market.total_pool);
}

#[test]
fn book_starts_from_a_market_without_stakes() {
    let (market, _) = new_market(MarketType::TimeBound, 2);
    let book = MarketBook::new(market.clone()).unwrap();
    assert!(book.predictions.is_empty());
    assert!(book.votes.is_empty());
    assert!(book.authorities.is_empty());
    assert!(book.vote_result.is_none());
    assert!(!book.closed);
    assert_eq!(book.market.key, id(100));

    let mut staked = market.clone();
    staked.total_pool = 5;
    staked.stakes_per_outcome = vec![5, 0];
    assert!(MarketBook::new(staked).is_none());
    let mut malformed = market;
    malformed.stakes_per_outcome = vec![0];
    assert!(MarketBook::new(malformed).is_none());
}

#[test]
fn ledger_is_the_sum_of_the_predictions() {
    let (mut book, mut creator) = new_book(MarketType::TimeBound, 3);
    check_ledger(&book);
    stake(&mut book, &mut creator, 7, 0, 350);
    check_ledger(&book);
    stake(&mut book, &mut creator, 8, 0, 350);
    stake(&mut book, &mut creator, 9, 2, 300);
    stake(&mut book, &mut creator, 10, 2, 0);
    check_ledger(&book);
    assert_eq!(book.market.stakes_per_outcome, vec![700, 0, 300]);
    assert_eq!(book.market.total_pool, 1000);
    assert_eq!(book.predictions.len(), 4);

    // A rejected stake leaves the ledger as it is.
    let mut nobody: Option<UserProfile> = None;
    assert_eq!(
        book.stake(&mut creator, &mut nobody, id(11), 3, 5, 10, 1),
        Err(ErrorCode::InvalidOutcomeIndex)
    );
    assert_eq!(
        book.stake(&mut creator, &mut nobody, id(11), 1, 5, DEADLINE, 1),
        Err(ErrorCode::MarketExpired)
    );
    assert_eq!(book.predictions.len(), 4);
    check_ledger(&book);

    // A claim leaves the ledger as it is, too.
    let mut resolver = initialize_ai_resolver(id(50), 7);
    book.resolve_via_oracle(&mut resolver, id(50), 0, Score::from_bits(0.9f32.to_bits()), DEADLINE)
        .unwrap();
    let mut no_creator: Option<CreatorProfile> = None;
    book.claim(&mut nobody, &mut no_creator, id(7), DEADLINE + 1).unwrap();
    check_ledger(&book);
}

#[test]
fn participant_holds_one_prediction_at_most() {
    let (mut book, mut creator) = new_book(MarketType::TimeBound, 2);
    stake(&mut book, &mut creator, 7, 0, 350);
    let volume = creator.total_volume;
    let mut nobody: Option<UserProfile> = None;
    assert_eq!(
        book.stake(&mut creator, &mut nobody, id(7), 1, 5, 10, 1),
        Err(ErrorCode::RecordAlreadyExists)
    );
    assert_eq!(book.predictions.len(), 1);
    assert_eq!(book.market.total_pool, 350);
    assert_eq!(creator.total_volume, volume);
}

#[test]
fn winners_in_the_book_are_paid_488_once() {
    let (mut book, mut creator) = new_book(MarketType::TimeBound, 2);
    stake(&mut book, &mut creator, 7, 0, 350);
    stake(&mut book, &mut creator, 8, 0, 350);
    stake(&mut book, &mut creator, 9, 1, 300);
    assert_eq!(book.phase(DEADLINE - 1), MarketPhase::Open);
    assert_eq!(book.phase(DEADLINE), MarketPhase::AwaitingResolution);

    let mut nobody: Option<UserProfile> = None;
    let mut no_creator: Option<CreatorProfile> = None;
    assert_eq!(
        book.claim(&mut nobody, &mut no_creator, id(7), DEADLINE),
        Err(ErrorCode::MarketNotResolved)
    );
    let mut resolver = initialize_ai_resolver(id(50), 7);
    book.resolve_via_oracle(&mut resolver, id(50), 0, Score::from_bits(0.9f32.to_bits()), DEADLINE)
        .unwrap();
    assert_eq!(book.phase(DEADLINE), MarketPhase::Resolved);

    let receipt = book.claim(&mut nobody, &mut no_creator, id(7), DEADLINE + 1).unwrap();
    assert_eq!(receipt.settlement.user_share, 500);
    assert_eq!(receipt.settlement.creator_fee, 10);
    assert_eq!(receipt.settlement.protocol_fee, 2);
    assert_eq!(receipt.settlement.reward, 488);
    assert!(book.predictions[0].claimed);
    assert!(!book.predictions[1].claimed);

    assert_eq!(
        book.claim(&mut nobody, &mut no_creator, id(7), DEADLINE + 2),
        Err(ErrorCode::RewardAlreadyClaimed)
    );
    assert_eq!(
        book.claim(&mut nobody, &mut no_creator, id(9), DEADLINE + 2),
        Err(ErrorCode::NotWinningPrediction)
    );
    // Someone who never staked has nothing to claim.
    assert_eq!(
        book.claim(&mut nobody, &mut no_creator, id(12), DEADLINE + 2),
        Err(ErrorCode::NotWinningPrediction)
    );
    assert!(book.claim(&mut nobody, &mut no_creator, id(8), DEADLINE + 2).is_ok());

    // 24 units of fees and 976 of rewards left the vault; nothing is left.
    assert_eq!(book.close(id(ADMIN), id(ADMIN), 1), Err(ErrorCode::VaultNotEmpty));
    assert_eq!(book.close(id(7), id(ADMIN), 0), Err(ErrorCode::Unauthorized));
    assert_eq!(book.close(id(ADMIN), id(ADMIN), 0), Ok(()));
    assert_eq!(book.phase(DEADLINE), MarketPhase::Closed);
}

#[test]
fn closed_book_takes_nothing() {
    let (mut book, mut creator) = new_book(MarketType::OpenEnded, 2);
    stake(&mut book, &mut creator, 7, 0, 350);
    assert_eq!(book.close(id(ADMIN), id(ADMIN), 0), Err(ErrorCode::MarketNotResolved));
    book.resolve_by_admin(id(ADMIN), id(ADMIN), Some(0)).unwrap();
    book.close(id(ADMIN), id(ADMIN), 0).unwrap();
    assert!(book.closed);

    let mut nobody: Option<UserProfile> = None;
    let mut no_creator: Option<CreatorProfile> = None;
    let mut resolver = initialize_ai_resolver(id(50), 7);
    let closed = Err(ErrorCode::MarketClosed);
    assert_eq!(book.stake(&mut creator, &mut nobody, id(8), 0, 5, 10, 1).map(|_| ()), closed);
    assert_eq!(book.claim(&mut nobody, &mut no_creator, id(7), 10).map(|_| ()), closed);
    assert_eq!(book.open_voting(DEADLINE, 1), closed);
    assert_eq!(book.vote(id(7), 0, DEADLINE, 1).map(|_| ()), closed);
    assert_eq!(book.weighted_vote(id(7), 0, DEADLINE, 1).map(|_| ()), closed);
    assert_eq!(book.register_authority(id(ADMIN), id(ADMIN), id(21), 1, 1).map(|_| ()), closed);
    assert_eq!(book.propose(id(21), 0, VOTING_END + 1).map(|_| ()), closed);
    assert_eq!(book.challenge(VOTING_END + 1).map(|_| ()), closed);
    assert_eq!(book.finalize(VOTING_END + 1).map(|_| ()), closed);
    assert_eq!(
        book.resolve_via_oracle(&mut resolver, id(50), 0, Score::from_bits(0.9f32.to_bits()), 10),
        closed
    );
    assert_eq!(book.resolve_by_admin(id(ADMIN), id(ADMIN), Some(0)), closed);
    assert_eq!(book.close(id(ADMIN), id(ADMIN), 0), closed);
    assert_eq!(ErrorCode::MarketClosed.message(), "Market is closed for predictions.");
}

#[test]
fn three_authorities_in_the_book() {
    let (mut book, mut creator) = new_book(MarketType::OpenEnded, 3);
    stake(&mut book, &mut creator, 7, 0, 10);
    stake(&mut book, &mut creator, 8, 1, 30);
    stake(&mut book, &mut creator, 9, 2, 20);
    stake(&mut book, &mut creator, 10, 2, 0);

    // Governance starts with the tally.
    assert_eq!(book.weighted_vote(id(7), 0, DEADLINE, 1), Err(ErrorCode::VotingNotStarted));
    assert_eq!(book.open_voting(DEADLINE - 1, 1), Err(ErrorCode::VotingNotStarted));
    assert_eq!(book.open_voting(DEADLINE, 1), Ok(()));
    assert_eq!(book.open_voting(DEADLINE, 1), Err(ErrorCode::RecordAlreadyExists));

    // Votes are weighted by the voter's own stake, whatever it was placed on.
    book.weighted_vote(id(7), 2, DEADLINE, 1).unwrap();
    book.weighted_vote(id(8), 0, DEADLINE + 5, 1).unwrap();
    book.weighted_vote(id(9), 0, VOTING_END, 1).unwrap();
    assert_eq!(book.weighted_vote(id(7), 2, DEADLINE, 1), Err(ErrorCode::RecordAlreadyExists));
    assert_eq!(book.vote(id(7), 2, DEADLINE, 1), Err(ErrorCode::RecordAlreadyExists));
    // No prediction, or one that stakes nothing: no stake to vote with.
    assert_eq!(book.weighted_vote(id(12), 2, DEADLINE, 1), Err(ErrorCode::InsufficientStake));
    assert_eq!(book.weighted_vote(id(10), 2, DEADLINE, 1), Err(ErrorCode::InsufficientStake));
    // A plain vote needs no stake.
    assert!(book.vote(id(12), 1, DEADLINE, 1).is_ok());
    assert_eq!(book.votes.len(), 4);
    {
        let tally = book.vote_result.as_ref().unwrap();
        assert_eq!(tally.vote_tallies, vec![2, 0, 1]);
        assert_eq!(tally.stake_weights, vec![50, 0, 10]);
        assert_eq!(tally.vote_count, 3);
    }

    for authority in [21u128, 22, 23] {
        book.register_authority(id(ADMIN), id(ADMIN), id(authority), 2, 1).unwrap();
    }
    assert_eq!(
        book.register_authority(id(ADMIN), id(ADMIN), id(22), 3, 1),
        Err(ErrorCode::RecordAlreadyExists)
    );
    assert_eq!(
        book.register_authority(id(7), id(ADMIN), id(24), 3, 1),
        Err(ErrorCode::Unauthorized)
    );
    assert_eq!(book.authorities.len(), 3);

    let proposed_at = VOTING_END + 1;
    assert_eq!(book.propose(id(21), 1, VOTING_END), Err(ErrorCode::VotingNotEnded));
    assert_eq!(book.propose(id(7), 1, proposed_at), Err(ErrorCode::Unauthorized));
    assert_eq!(book.challenge(proposed_at), Err(ErrorCode::NoProposedResolution));
    assert_eq!(book.finalize(proposed_at), Err(ErrorCode::NoProposedResolution));
    assert_eq!(book.propose(id(21), 1, proposed_at), Ok(ProposalEffect::Proposed));
    assert_eq!(book.propose(id(22), 1, proposed_at + 1), Ok(ProposalEffect::Confirmed));
    assert_eq!(book.propose(id(23), 2, proposed_at + 2), Ok(ProposalEffect::Challenged));
    assert_eq!(book.vote_result.as_ref().unwrap().challenge_count, 1);
    assert_eq!(book.authorities[0].vote, Some(1));
    assert_eq!(book.authorities[1].vote, Some(1));
    assert_eq!(book.authorities[2].vote, Some(2));
    assert!(book.authorities.iter().all(|authority| authority.has_voted));

    let challenge_end = proposed_at + CHALLENGE_PERIOD_SECONDS;
    assert_eq!(book.finalize(challenge_end), Err(ErrorCode::ChallengePeriodActive));
    assert_eq!(book.finalize(challenge_end + 1), Ok(Some(0)));
    assert!(book.market.resolved);
    assert_eq!(book.market.winning_outcome, Some(0));
    assert!(book.vote_result.as_ref().unwrap().finalized);

    // Resolved for good.
    assert_eq!(book.finalize(challenge_end + 2), Err(ErrorCode::MarketAlreadyResolved));
    assert_eq!(
        book.resolve_by_admin(id(ADMIN), id(ADMIN), Some(1)),
        Err(ErrorCode::MarketAlreadyResolved)
    );
    assert_eq!(book.propose(id(21), 1, challenge_end + 2), Err(ErrorCode::MarketAlreadyResolved));
    assert_eq!(book.challenge(challenge_end), Err(ErrorCode::ResolutionFinalized));
    assert_eq!(book.market.winning_outcome, Some(0));
    check_ledger(&book);

    // The winner's share: 10 * 60 / 10 = 60.
    let mut nobody: Option<UserProfile> = None;
    let mut no_creator: Option<CreatorProfile> = None;
    let receipt = book.claim(&mut nobody, &mut no_creator, id(7), challenge_end + 3).unwrap();
    assert_eq!(receipt.settlement.user_share, 60);
    assert_eq!(receipt.settlement.creator_fee, 1);
    assert_eq!(receipt.settlement.protocol_fee, 0);
    assert_eq!(receipt.settlement.reward, 59);
}

#[test]
fn governance_without_a_tally_is_rejected() {
    let (mut book, _) = new_book(MarketType::OpenEnded, 3);
    book.register_authority(id(ADMIN), id(ADMIN), id(21), 2, 1).unwrap();
    assert_eq!(book.propose(id(21), 1, VOTING_END + 1), Err(ErrorCode::VotingNotStarted));
    assert_eq!(book.challenge(VOTING_END + 1), Err(ErrorCode::NoProposedResolution));
    assert_eq!(book.finalize(VOTING_END + 1), Err(ErrorCode::NoProposedResolution));
    assert!(book.vote_result.is_none());
    assert!(!book.authorities[0].has_voted);

    let (mut time_bound, _) = new_book(MarketType::TimeBound, 3);
    assert_eq!(time_bound.open_voting(DEADLINE, 1), Err(ErrorCode::NotOpenEndedMarket));
    assert_eq!(
        time_bound.register_authority(id(ADMIN), id(ADMIN), id(21), 2, 1),
        Err(ErrorCode::NotOpenEndedMarket)
    );
}

#[test]
fn governance_moves_through_its_phases() {
    let (mut book, mut creator) = new_book(MarketType::OpenEnded, 2);
    stake(&mut book, &mut creator, 7, 0, 10);
    assert_eq!(book.governance_phase(DEADLINE), GovernancePhase::Uninitialized);
    book.open_voting(DEADLINE, 1).unwrap();
    assert_eq!(book.governance_phase(DEADLINE), GovernancePhase::VotingOpen);
    assert_eq!(book.governance_phase(VOTING_END), GovernancePhase::VotingOpen);
    assert_eq!(book.governance_phase(VOTING_END + 1), GovernancePhase::AwaitingProposal);
    assert_eq!(book.governance_phase(i64::MAX), GovernancePhase::AwaitingProposal);
    book.weighted_vote(id(7), 1, DEADLINE, 1).unwrap();
    book.register_authority(id(ADMIN), id(ADMIN), id(21), 2, 1).unwrap();
    book.propose(id(21), 0, VOTING_END + 1).unwrap();
    assert_eq!(book.governance_phase(VOTING_END + 1), GovernancePhase::ProposalPending);
    assert_eq!(book.challenge(VOTING_END + 1 + CHALLENGE_PERIOD_SECONDS), Ok(1));
    assert_eq!(book.governance_phase(i64::MAX), GovernancePhase::ProposalPending);
    assert_eq!(book.finalize(VOTING_END + 2 + CHALLENGE_PERIOD_SECONDS), Ok(Some(1)));
    assert_eq!(book.governance_phase(VOTING_END + 1), GovernancePhase::Finalized);
    assert_eq!(book.phase(0), MarketPhase::Resolved);
}

#[test]
fn payouts_never_exceed_the_pool() {
    let (mut book, mut creator) = new_book(MarketType::TimeBound, 2);
    stake(&mut book, &mut creator, 7, 0, 1);
    stake(&mut book, &mut creator, 8, 0, 1);
    stake(&mut book, &mut creator, 9, 0, 1);
    stake(&mut book, &mut creator, 10, 1, 7);
    book.resolve_by_admin(id(ADMIN), id(ADMIN), Some(0)).unwrap();
    let mut nobody: Option<UserProfile> = None;
    let mut no_creator: Option<CreatorProfile> = None;
    let mut paid: u128 = 0;
    for user in [7u128, 8, 9] {
        let receipt = book.claim(&mut nobody, &mut no_creator, id(user), DEADLINE).unwrap();
        // 1 * 10 / 3, rounded down
        assert_eq!(receipt.settlement.user_share, 3);
        let moved: u64 = receipt.settlement.transfers().iter().map(|order| order.amount).sum();
        assert_eq!(moved as u128, receipt.settlement.user_share);
        paid += receipt.settlement.user_share;
    }
    assert_eq!(
        book.claim(&mut nobody, &mut no_creator, id(10), DEADLINE),
        Err(ErrorCode::NotWinningPrediction)
    );
    // One unit of dust stays in the vault for good.
    assert_eq!(paid, 9);
    assert_eq!(book.market.total_pool, 10);
    assert_eq!(book.close(id(ADMIN), id(ADMIN), 1), Err(ErrorCode::VaultNotEmpty));
}

#[test]
fn tampered_books_are_told_apart() {
    let (mut book, mut creator) = new_book(MarketType::OpenEnded, 2);
    assert!(book.is_well_formed());
    stake(&mut book, &mut creator, 7, 0, 10);
    stake(&mut book, &mut creator, 8, 1, 5);
    book.open_voting(DEADLINE, 1).unwrap();
    book.weighted_vote(id(7), 1, DEADLINE, 1).unwrap();
    book.vote(id(12), 1, DEADLINE, 1).unwrap();
    book.register_authority(id(ADMIN), id(ADMIN), id(21), 2, 1).unwrap();
    book.register_authority(id(ADMIN), id(ADMIN), id(22), 2, 1).unwrap();
    book.propose(id(21), 0, VOTING_END + 1).unwrap();
    assert!(book.is_well_formed());

    // One participant with two predictions.
    let mut twice = book.clone();
    twice.predictions[1].user = id(7);
    assert!(!twice.is_well_formed());
    // A prediction on another market, or on no outcome of this one.
    let mut foreign = book.clone();
    foreign.predictions[0].market = id(101);
    assert!(!foreign.is_well_formed());
    let mut beyond = book.clone();
    beyond.predictions[0].outcome_index = 2;
    assert!(!beyond.is_well_formed());
    // A ledger that says something else than the predictions.
    let mut moved = book.clone();
    moved.predictions[0].outcome_index = 1;
    assert!(!moved.is_well_formed());
    let mut more = book.clone();
    more.predictions[0].amount = 11;
    assert!(!more.is_well_formed());
    let mut huge = book.clone();
    huge.predictions[0].amount = u64::MAX;
    assert!(!huge.is_well_formed());
    let mut pool = book.clone();
    pool.market.total_pool = 16;
    assert!(!pool.is_well_formed());
    // Votes and authorities.
    let mut voted_twice = book.clone();
    voted_twice.votes[1].voter = id(7);
    assert!(!voted_twice.is_well_formed());
    let mut foreign_vote = book.clone();
    foreign_vote.votes[0].market = id(101);
    assert!(!foreign_vote.is_well_formed());
    let mut registered_twice = book.clone();
    registered_twice.authorities[1].authority = id(21);
    assert!(!registered_twice.is_well_formed());
    let mut foreign_authority = book.clone();
    foreign_authority.authorities[1].market = id(101);
    assert!(!foreign_authority.is_well_formed());
    // The tally.
    let mut short = book.clone();
    short.vote_result.as_mut().unwrap().stake_weights.pop();
    assert!(!short.is_well_formed());
    let mut foreign_tally = book.clone();
    foreign_tally.vote_result.as_mut().unwrap().market = id(101);
    assert!(!foreign_tally.is_well_formed());
    let mut finalized = book.clone();
    finalized.vote_result.as_mut().unwrap().finalized = true;
    assert!(!finalized.is_well_formed());
    let mut early = book.clone();
    early.vote_result.as_mut().unwrap().proposal_time = VOTING_END;
    assert!(!early.is_well_formed());

    // What only flags a claim changes nothing.
    let mut claimed = book.clone();
    claimed.predictions[0].claimed = true;
    assert!(claimed.is_well_formed());
    assert!(book.is_well_formed());
}
