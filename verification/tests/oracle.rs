use prediction_market::error::ErrorCode;
use prediction_market::identity::Identity;
use prediction_market::lifecycle::{close_market, resolve_market, MarketPhase};
use prediction_market::market::{Market, MarketType};
use prediction_market::oracle::{initialize_ai_resolver, resolve_market_via_ai, AIResolver};
use prediction_market::score::{
    Score, MIN_CREATION_SCORE_BITS, MIN_RESOLUTION_CONFIDENCE_BITS, POSITIVE_INFINITY_BITS,
};

fn id(n: u128) -> Identity {
    Identity::new(0, n)
}

fn score(value: f32) -> Score {
    Score::from_bits(value.to_bits())
}

fn market(kind: MarketType) -> Market {
    Market {
        key: id(100),
        creator: id(1),
        question: String::from("Will it rain tomorrow?"),
        outcomes: vec![String::from("yes"), String::from("no")],
        ai_score: score(0.9),
        market_type: kind,
        deadline: 1_000,
        ai_suggested_deadline: 1_000,
        resolved: false,
        winning_outcome: None,
        total_pool: 1000,
        creator_fee_bps: 200,
        protocol_fee_bps: 50,
        stakes_per_outcome: vec![700, 300],
        ai_resolvable: true,
        bump: 255,
    }
}

#[test]
fn thresholds_are_the_patterns_of_the_numbers() {
    assert_eq!(MIN_RESOLUTION_CONFIDENCE_BITS, 0.85f32.to_bits());
    assert_eq!(MIN_CREATION_SCORE_BITS, 0.7f32.to_bits());
    assert_eq!(POSITIVE_INFINITY_BITS, f32::INFINITY.to_bits());
}

#[test]
fn scores_compare_as_the_numbers_do() {
    let mut samples: Vec<f32> = vec![
        0.0,
        -0.0,
        0.5,
        0.69,
        0.7,
        0.8,
        0.84,
        0.85,
        0.86,
        0.9,
        1.0,
        2.5,
        -0.85,
        -0.9,
        -1.0,
        f32::MIN_POSITIVE,
        f32::MAX,
        f32::MIN,
        f32::INFINITY,
        f32::NEG_INFINITY,
        f32::NAN,
        -f32::NAN,
        f32::EPSILON,
    ];
    for bits in [
        0.85f32.to_bits() - 1,
        0.85f32.to_bits() + 1,
        0.7f32.to_bits() - 1,
        0.7f32.to_bits() + 1,
        0x7F80_0001,
        0x7FFF_FFFF,
        0xFF80_0000,
        0xFFFF_FFFF,
        0x8000_0000,
        0x0000_0001,
        0xBF59_999A,
    ] {
        samples.push(f32::from_bits(bits));
    }
    for value in samples {
        assert_eq!(
            score(value).meets_resolution_confidence(),
            value >= 0.85f32,
            "confidence {:?}",
            value
        );
        assert_eq!(score(value).meets_creation_score(), value >= 0.7f32, "score {:?}", value);
    }
}

#[test]
fn oracle_resolves_a_time_bound_market() {
    let mut resolver = initialize_ai_resolver(id(50), 7);
    assert_eq!(
        resolver,
        AIResolver { authority: id(50), active: true, resolution_count: 0, bump: 7 }
    );
    let mut open = market(MarketType::TimeBound);
    assert_eq!(open.phase(999), MarketPhase::Open);
    assert_eq!(open.phase(1_000), MarketPhase::AwaitingResolution);
    assert_eq!(
        resolve_market_via_ai(&mut open, &mut resolver, id(50), 1, score(0.85), 1_000),
        Ok(())
    );
    assert!(open.resolved);
    assert_eq!(open.winning_outcome, Some(1));
    assert_eq!(open.phase(999), MarketPhase::Resolved);
    assert_eq!(resolver.resolution_count, 1);
    assert_eq!(open.total_pool, 1000);
    assert_eq!(open.stakes_per_outcome, vec![700, 300]);
}

#[test]
fn low_confidence_leaves_the_market_unresolved() {
    let mut resolver = initialize_ai_resolver(id(50), 7);
    let mut open = market(MarketType::TimeBound);
    assert_eq!(
        resolve_market_via_ai(&mut open, &mut resolver, id(50), 0, score(0.80), 2_000),
        Err(ErrorCode::LowAIConfidence)
    );
    assert!(!open.resolved);
    assert_eq!(open.winning_outcome, None);
    assert_eq!(resolver.resolution_count, 0);
    assert_eq!(ErrorCode::LowAIConfidence.message(), "AI confidence score too low for resolution.");
}

#[test]
fn oracle_rejections_come_in_order() {
    let mut resolver = AIResolver { active: false, ..initialize_ai_resolver(id(50), 7) };
    let mut open = market(MarketType::OpenEnded);
    open.resolved = true;
    // Everything is wrong: the caller comes first.
    assert_eq!(
        resolve_market_via_ai(&mut open, &mut resolver, id(51), 2, score(0.1), 999),
        Err(ErrorCode::Unauthorized)
    );
    assert_eq!(
        resolve_market_via_ai(&mut open, &mut resolver, id(50), 2, score(0.1), 999),
        Err(ErrorCode::ResolverInactive)
    );
    resolver.active = true;
    assert_eq!(
        resolve_market_via_ai(&mut open, &mut resolver, id(50), 2, score(0.1), 999),
        Err(ErrorCode::MarketAlreadyResolved)
    );
    open.resolved = false;
    assert_eq!(
        resolve_market_via_ai(&mut open, &mut resolver, id(50), 2, score(0.1), 999),
        Err(ErrorCode::MarketNotExpired)
    );
    assert_eq!(
        resolve_market_via_ai(&mut open, &mut resolver, id(50), 2, score(0.1), 1_000),
        Err(ErrorCode::LowAIConfidence)
    );
    assert_eq!(
        resolve_market_via_ai(&mut open, &mut resolver, id(50), 2, score(0.99), 1_000),
        Err(ErrorCode::NotTimeBoundMarket)
    );
    open.market_type = MarketType::TimeBound;
    assert_eq!(
        resolve_market_via_ai(&mut open, &mut resolver, id(50), 2, score(0.99), 1_000),
        Err(ErrorCode::InvalidOutcomeIndex)
    );
    resolver.resolution_count = u64::MAX;
    assert_eq!(
        resolve_market_via_ai(&mut open, &mut resolver, id(50), 1, score(0.99), 1_000),
        Err(ErrorCode::ArithmeticOverflow)
    );
    assert!(!open.resolved);
    assert_eq!(open.winning_outcome, None);
    assert_eq!(resolver.resolution_count, u64::MAX);
}

#[test]
fn resolution_is_single_shot() {
    let mut resolver = initialize_ai_resolver(id(50), 7);
    let mut open = market(MarketType::TimeBound);
    resolve_market_via_ai(&mut open, &mut resolver, id(50), 1, score(0.9), 1_000).unwrap();
    assert_eq!(
        resolve_market_via_ai(&mut open, &mut resolver, id(50), 0, score(0.9), 1_001),
        Err(ErrorCode::MarketAlreadyResolved)
    );
    assert_eq!(
        resolve_market(&mut open, id(9), id(9), Some(0)),
        Err(ErrorCode::MarketAlreadyResolved)
    );
    assert_eq!(open.winning_outcome, Some(1));
    assert_eq!(resolver.resolution_count, 1);
    assert_eq!(ErrorCode::MarketAlreadyResolved.message(), "Market is already resolved.");
}

#[test]
fn administrator_resolves_either_kind() {
    let mut time_bound = market(MarketType::TimeBound);
    assert_eq!(
        resolve_market(&mut time_bound, id(8), id(9), Some(0)),
        Err(ErrorCode::Unauthorized)
    );
    assert_eq!(
        resolve_market(&mut time_bound, id(9), id(9), None),
        Err(ErrorCode::WinningOutcomeRequired)
    );
    assert_eq!(
        resolve_market(&mut time_bound, id(9), id(9), Some(2)),
        Err(ErrorCode::InvalidOutcomeIndex)
    );
    assert!(!time_bound.resolved);
    assert_eq!(resolve_market(&mut time_bound, id(9), id(9), Some(1)), Ok(()));
    assert!(time_bound.resolved);
    assert_eq!(time_bound.winning_outcome, Some(1));

    // An open-ended market is resolved to whatever is handed in.
    let mut open_ended = market(MarketType::OpenEnded);
    assert_eq!(resolve_market(&mut open_ended, id(9), id(9), None), Ok(()));
    assert!(open_ended.resolved);
    assert_eq!(open_ended.winning_outcome, None);
    let mut open_ended = market(MarketType::OpenEnded);
    assert_eq!(resolve_market(&mut open_ended, id(9), id(9), Some(9)), Ok(()));
    assert_eq!(open_ended.winning_outcome, Some(9));
}

#[test]
fn closing_needs_the_administrator_a_resolved_market_and_an_empty_vault() {
    let mut open = market(MarketType::TimeBound);
    assert_eq!(close_market(&open, id(8), id(9), 0), Err(ErrorCode::Unauthorized));
    assert_eq!(close_market(&open, id(9), id(9), 0), Err(ErrorCode::MarketNotResolved));
    assert_eq!(close_market(&open, id(9), id(9), 5), Err(ErrorCode::MarketNotResolved));
    open.resolved = true;
    assert_eq!(close_market(&open, id(8), id(9), 0), Err(ErrorCode::Unauthorized));
    assert_eq!(close_market(&open, id(9), id(9), 1), Err(ErrorCode::VaultNotEmpty));
    assert_eq!(close_market(&open, id(9), id(9), 0), Ok(()));
}
