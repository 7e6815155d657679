use prediction_market::error::{ErrorCode, ErrorKind};
use prediction_market::identity::Identity;
use prediction_market::market::{Market, MarketType};
use prediction_market::profile::{
    create_creator_profile, get_next_tier_threshold, initialize_user_profile, update_creator_tier,
    CreatorProfile, UserProfile,
};
use prediction_market::records::{OutcomeVote, Prediction};
use prediction_market::score::Score;
use prediction_market::stats::{
    initialize_protocol_stats, update_protocol_stats, MAX_RECENT_MARKETS,
};

fn id(n: u128) -> Identity {
    Identity::new(0, n)
}

fn market(key: u128, resolved: bool) -> Market {
    Market {
        key: id(key),
        creator: id(1),
        question: String::from("q"),
        outcomes: vec![String::from("yes"), String::from("no")],
        ai_score: Score::from_bits(0.9f32.to_bits()),
        market_type: MarketType::TimeBound,
        deadline: 1_000,
        ai_suggested_deadline: 1_000,
        resolved,
        winning_outcome: if resolved { Some(0) } else { None },
        total_pool: 0,
        creator_fee_bps: 200,
        protocol_fee_bps: 50,
        stakes_per_outcome: vec![0, 0],
        ai_resolvable: true,
        bump: 255,
    }
}

fn prediction(amount: u64) -> Prediction {
    Prediction {
        user: id(7),
        market: id(100),
        outcome_index: 0,
        amount,
        timestamp: 10,
        claimed: false,
        bump: 254,
    }
}

#[test]
fn identities_are_equal_when_both_halves_are() {
    assert_eq!(Identity::new(1, 2), Identity { hi: 1, lo: 2 });
    assert!(Identity::new(1, 2).same_as(&Identity::new(1, 2)));
    assert!(!Identity::new(1, 2).same_as(&Identity::new(2, 1)));
    assert!(!Identity::new(1, 2).same_as(&Identity::new(1, 3)));
    assert!(!Identity::new(1, 2).same_as(&Identity::new(0, 2)));
    assert_ne!(Identity::new(0, 1), Identity::new(1, 0));
}

#[test]
fn market_kinds_have_codes() {
    assert_eq!(MarketType::TimeBound.code(), 0);
    assert_eq!(MarketType::OpenEnded.code(), 1);
    assert_eq!(MarketType::from_code(0), Some(MarketType::TimeBound));
    assert_eq!(MarketType::from_code(1), Some(MarketType::OpenEnded));
    assert_eq!(MarketType::from_code(2), None);
    assert_eq!(MarketType::from_code(255), None);
}

#[test]
fn fresh_profiles_are_empty() {
    assert_eq!(
        create_creator_profile(id(1), 3),
        CreatorProfile {
            creator: id(1),
            last_created_at: 0,
            markets_created: 0,
            total_volume: 0,
            traction_score: 0,
            tier: 0,
            bump: 3,
        }
    );
    assert_eq!(
        initialize_user_profile(id(7), 55, 4),
        UserProfile {
            user: id(7),
            total_staked: 0,
            total_winnings: 0,
            total_predictions: 0,
            winning_predictions: 0,
            last_active_ts: 55,
            bump: 4,
        }
    );
}

#[test]
fn tier_thresholds() {
    let at = |tier: u8| get_next_tier_threshold(&CreatorProfile { tier, ..create_creator_profile(id(1), 3) });
    assert_eq!(at(0), Some((1_000, 5, 100)));
    assert_eq!(at(1), Some((10_000, 20, 300)));
    assert_eq!(at(2), Some((50_000, 50, 500)));
    assert_eq!(at(3), Some((200_000, 100, 1000)));
    assert_eq!(at(4), None);
    assert_eq!(at(255), None);
}

#[test]
fn promotion_lifts_one_tier_at_a_time() {
    let mut profile = CreatorProfile {
        markets_created: 100,
        total_volume: 200_000,
        traction_score: 1000,
        ..create_creator_profile(id(1), 3)
    };
    for tier in 0..4u8 {
        let event = profile.promote_if_due().unwrap();
        assert_eq!(event.previous_tier, tier);
        assert_eq!(event.new_tier, tier + 1);
        assert_eq!(event.creator, id(1));
        assert_eq!(event.markets_count, 100);
        assert_eq!(event.total_volume, 200_000);
        assert_eq!(event.traction_score, 1000);
        assert_eq!(profile.tier, tier + 1);
    }
    assert_eq!(profile.promote_if_due(), None);
    assert_eq!(profile.tier, 4);

    let mut short = CreatorProfile {
        markets_created: 5,
        total_volume: 1_000,
        traction_score: 99,
        ..create_creator_profile(id(1), 3)
    };
    assert_eq!(short.promote_if_due(), None);
    assert_eq!(short.tier, 0);
}

#[test]
fn tier_update_goes_by_the_record() {
    let with = |markets_created: u32, total_volume: u64, traction_score: u64, tier: u8| {
        let mut profile = CreatorProfile {
            markets_created,
            total_volume,
            traction_score,
            tier,
            ..create_creator_profile(id(1), 3)
        };
        let changed = update_creator_tier(&mut profile);
        assert_eq!(profile.markets_created, markets_created);
        assert_eq!(profile.total_volume, total_volume);
        assert_eq!(profile.traction_score, traction_score);
        (profile.tier, changed)
    };
    assert_eq!(with(0, 0, 0, 0), (0, false));
    assert_eq!(with(4, 1_000_000, 5_000, 3), (0, true));
    assert_eq!(with(5, 999, 0, 0), (0, false));
    assert_eq!(with(5, 1_000, 0, 0), (1, true));
    assert_eq!(with(5, 1_000, 0, 1), (1, false));
    assert_eq!(with(20, 9_999, 0, 1), (1, false));
    assert_eq!(with(20, 10_000, 0, 0), (2, true));
    assert_eq!(with(50, 50_000, 499, 0), (2, true));
    assert_eq!(with(50, 50_000, 500, 2), (3, true));
    assert_eq!(with(100, 200_000, 999, 4), (3, true));
    assert_eq!(with(100, 200_000, 1000, 3), (4, true));
    assert_eq!(with(u32::MAX, u64::MAX, u64::MAX, 4), (4, false));
    assert_eq!(with(100, 199_999, 1000, 0), (3, true));
}

#[test]
fn stats_count_markets_and_stakes() {
    let mut stats = initialize_protocol_stats(5, 1);
    assert_eq!(stats.total_volume, 0);
    assert_eq!(stats.total_markets, 0);
    assert_eq!(stats.total_users, 0);
    assert_eq!(stats.total_stakes, 0);
    assert!(stats.resolved_markets.is_empty());
    assert_eq!(stats.last_updated_ts, 5);
    assert_eq!(stats.bump, 1);

    let open = market(100, false);
    assert_eq!(update_protocol_stats(&mut stats, None, None, None, 6), Ok(()));
    assert_eq!(stats.last_updated_ts, 6);
    assert_eq!(stats.total_markets, 0);
    assert_eq!(update_protocol_stats(&mut stats, None, None, Some(&open), 7), Ok(()));
    assert_eq!(stats.total_markets, 1);
    assert_eq!(update_protocol_stats(&mut stats, None, Some(prediction(40)), None, 8), Ok(()));
    assert_eq!(stats.total_volume, 40);
    assert_eq!(stats.total_stakes, 1);
    assert_eq!(
        update_protocol_stats(&mut stats, Some(&open), Some(prediction(2)), Some(&open), 9),
        Ok(())
    );
    assert_eq!(stats.total_volume, 42);
    assert_eq!(stats.total_stakes, 2);
    assert_eq!(stats.total_markets, 2);
    assert_eq!(stats.total_users, 0);
    assert!(stats.resolved_markets.is_empty());
    assert_eq!(stats.last_updated_ts, 9);
}

#[test]
fn stats_remember_the_last_twenty_resolved_markets() {
    assert_eq!(MAX_RECENT_MARKETS, 20);
    let mut stats = initialize_protocol_stats(5, 1);
    for key in 1..=20u128 {
        update_protocol_stats(&mut stats, Some(&market(key, true)), None, None, 6).unwrap();
    }
    let expected: Vec<Identity> = (1..=20u128).map(id).collect();
    assert_eq!(stats.resolved_markets, expected);
    // A market that is held already changes nothing.
    update_protocol_stats(&mut stats, Some(&market(3, true)), None, None, 6).unwrap();
    assert_eq!(stats.resolved_markets, expected);
    // The twenty-first pushes the oldest out.
    update_protocol_stats(&mut stats, Some(&market(21, true)), None, None, 6).unwrap();
    let expected: Vec<Identity> = (2..=21u128).map(id).collect();
    assert_eq!(stats.resolved_markets, expected);
    // The one that left may come back, at the end.
    update_protocol_stats(&mut stats, Some(&market(1, true)), None, None, 6).unwrap();
    let mut expected: Vec<Identity> = (3..=21u128).map(id).collect();
    expected.push(id(1));
    assert_eq!(stats.resolved_markets, expected);
    assert_eq!(stats.total_markets, 0);
}

#[test]
fn stats_overflow_changes_nothing() {
    let mut stats = initialize_protocol_stats(5, 1);
    stats.total_volume = u64::MAX - 1;
    let resolved = market(1, true);
    assert_eq!(
        update_protocol_stats(&mut stats, Some(&resolved), Some(prediction(2)), Some(&resolved), 6),
        Err(ErrorCode::ArithmeticOverflow)
    );
    assert_eq!(stats.total_volume, u64::MAX - 1);
    assert_eq!(stats.total_markets, 0);
    assert_eq!(stats.total_stakes, 0);
    assert!(stats.resolved_markets.is_empty());
    assert_eq!(stats.last_updated_ts, 5);
    stats.total_volume = 0;
    stats.total_markets = u32::MAX;
    assert_eq!(
        update_protocol_stats(&mut stats, None, None, Some(&resolved), 6),
        Err(ErrorCode::ArithmeticOverflow)
    );
    stats.total_markets = 0;
    stats.total_stakes = u64::MAX;
    assert_eq!(
        update_protocol_stats(&mut stats, None, Some(prediction(0)), None, 6),
        Err(ErrorCode::ArithmeticOverflow)
    );
    assert_eq!(stats.last_updated_ts, 5);
}

#[test]
fn errors_have_a_kind_and_a_message() {
    let all = [
        (ErrorCode::TooManyOutcomes, ErrorKind::Validation, "Too many outcomes. Maximum is 5."),
        (ErrorCode::LowAIScore, ErrorKind::Validation, "AI score too low. Minimum is 0.7."),
        (ErrorCode::InvalidMarketType, ErrorKind::Validation, "Invalid market type."),
        (ErrorCode::InvalidDeadline, ErrorKind::Validation, "Deadline must be in the future."),
        (ErrorCode::CreatorOnCooldown, ErrorKind::State, "Creator is on cooldown period."),
        (
            ErrorCode::ExcessiveCreatorFee,
            ErrorKind::Validation,
            "Creator fee is too high. Maximum is 5%.",
        ),
        (ErrorCode::MarketAlreadyResolved, ErrorKind::State, "Market is already resolved."),
        (ErrorCode::MarketClosed, ErrorKind::State, "Market is closed for predictions."),
        (ErrorCode::InvalidOutcomeIndex, ErrorKind::Validation, "Invalid outcome index."),
        (ErrorCode::NotOpenEndedMarket, ErrorKind::State, "Not an open-ended market."),
        (ErrorCode::VotingNotStarted, ErrorKind::State, "Voting period not started yet."),
        (ErrorCode::VotingPeriodEnded, ErrorKind::State, "Voting period has ended."),
        (ErrorCode::Unauthorized, ErrorKind::Authorization, "Unauthorized action."),
        (
            ErrorCode::WinningOutcomeRequired,
            ErrorKind::Validation,
            "Winning outcome index required for time-bound markets.",
        ),
        (ErrorCode::MarketNotResolved, ErrorKind::State, "Market not resolved yet."),
        (ErrorCode::RewardAlreadyClaimed, ErrorKind::Resource, "Reward already claimed."),
        (ErrorCode::NoWinningOutcome, ErrorKind::State, "No winning outcome set."),
        (ErrorCode::NotWinningPrediction, ErrorKind::Resource, "Not a winning prediction."),
        (ErrorCode::InvalidDistribution, ErrorKind::Resource, "Invalid distribution."),
        (
            ErrorCode::MarketExpired,
            ErrorKind::State,
            "Market has expired. The deadline has passed.",
        ),
        (
            ErrorCode::LowAIConfidence,
            ErrorKind::Validation,
            "AI confidence score too low for resolution.",
        ),
        (ErrorCode::ResolverInactive, ErrorKind::State, "AI resolver is inactive."),
        (
            ErrorCode::MarketNotExpired,
            ErrorKind::State,
            "Market has not yet reached its deadline.",
        ),
        (
            ErrorCode::NotTimeBoundMarket,
            ErrorKind::State,
            "AI resolver can only resolve time-bound markets.",
        ),
        (
            ErrorCode::InvalidWeight,
            ErrorKind::Validation,
            "Invalid weight for vote authority. Must be between 1 and 5.",
        ),
        (ErrorCode::InsufficientStake, ErrorKind::Resource, "Insufficient stake for voting."),
        (ErrorCode::VotingNotEnded, ErrorKind::State, "Voting has not ended yet."),
        (ErrorCode::NoProposedResolution, ErrorKind::State, "No proposed resolution exists."),
        (
            ErrorCode::ChallengePeriodActive,
            ErrorKind::State,
            "Challenge period is still active.",
        ),
        (ErrorCode::ChallengePeriodEnded, ErrorKind::State, "Challenge period has ended."),
        (
            ErrorCode::ResolutionFinalized,
            ErrorKind::State,
            "Resolution has already been finalized.",
        ),
        (ErrorCode::ArithmeticOverflow, ErrorKind::Arithmetic, "Arithmetic overflow."),
        (ErrorCode::VaultNotEmpty, ErrorKind::State, "Settlement vault is not empty."),
        (ErrorCode::RecordAlreadyExists, ErrorKind::State, "Record already exists."),
    ];
    for (error, kind, message) in all {
        assert_eq!(error.kind(), kind, "{:?}", error);
        assert_eq!(error.message(), message);
    }
}

#[test]
fn defaults_are_empty_records() {
    let nobody = Identity::default();
    assert_eq!(nobody, Identity { hi: 0, lo: 0 });
    assert_eq!(
        Prediction::default(),
        Prediction {
            user: nobody,
            market: nobody,
            outcome_index: 0,
            amount: 0,
            timestamp: 0,
            claimed: false,
            bump: 0,
        }
    );
    assert_eq!(
        OutcomeVote::default(),
        OutcomeVote { market: nobody, voter: nobody, outcome_index: 0, bump: 0 }
    );
    assert_eq!(
        CreatorProfile::default(),
        CreatorProfile { bump: 0, ..create_creator_profile(nobody, 9) }
    );
    let market = Market::default();
    assert_eq!(market.key, nobody);
    assert_eq!(market.creator, nobody);
    assert_eq!(market.question, "");
    assert!(market.outcomes.is_empty());
    assert_eq!(market.ai_score, Score::from_bits(0));
    assert_eq!(market.market_type, MarketType::TimeBound);
    assert_eq!(market.deadline, 0);
    assert_eq!(market.ai_suggested_deadline, 0);
    assert!(!market.resolved);
    assert_eq!(market.winning_outcome, None);
    assert_eq!(market.total_pool, 0);
    assert_eq!(market.creator_fee_bps, 0);
    assert_eq!(market.protocol_fee_bps, 0);
    assert!(market.stakes_per_outcome.is_empty());
    assert!(!market.ai_resolvable);
    assert_eq!(market.bump, 0);
    assert!(market.is_well_formed());
}
