//! Creating a market.

use vstd::prelude::*;
use crate::error::ErrorCode;
use crate::events::MarketCreatedEvent;
use crate::identity::Identity;
use crate::market::{zero_amounts, Market, MarketType, MarketView, MAX_OUTCOMES};
use crate::profile::CreatorProfile;
use crate::score::Score;

verus! {

/// The creator's fee where none is asked for: 2%.
pub const DEFAULT_CREATOR_FEE_BPS: u16 = 200;

/// The highest fee a creator may ask for: 5%.
pub const MAX_CREATOR_FEE_BPS: u16 = 500;

/// The protocol's fee on every market: 0.5%.
pub const PROTOCOL_FEE_BPS: u16 = 50;

/// How long a creator of tier 0 waits between two markets: five days.
pub const CREATOR_COOLDOWN_SECONDS: i64 = 432_000;

/// What a successful creation hands back.
#[derive(Debug)]
pub struct MarketCreation {
    /// The new market.
    pub market: Market,
    /// The announcement of the creation.
    pub created_event: MarketCreatedEvent,
}

/// Whether a creator of tier 0 who has created a market before has to wait
/// longer.
pub open spec fn on_cooldown(creator_profile: CreatorProfile, current_time: i64) -> bool {
    &&& creator_profile.tier == 0
    &&& creator_profile.last_created_at > 0
    &&& current_time - creator_profile.last_created_at < CREATOR_COOLDOWN_SECONDS
}

/// Why a creation is rejected, or `None` where it succeeds. The
/// conditions are tested in the order written.
pub open spec fn creation_rejection(
    creator_profile: CreatorProfile,
    creator: Identity,
    outcome_count: nat,
    ai_score: Score,
    ai_recommended_resolution_time: i64,
    ai_classification: u8,
    creator_fee_bps: Option<u16>,
    current_time: i64,
) -> Option<ErrorCode> {
    if creator_profile.creator != creator {
        Some(ErrorCode::Unauthorized)
    } else if outcome_count > MAX_OUTCOMES {
        Some(ErrorCode::TooManyOutcomes)
    } else if !ai_score.spec_meets_creation_score() {
        Some(ErrorCode::LowAIScore)
    } else if MarketType::spec_from_code(ai_classification) is None {
        Some(ErrorCode::InvalidMarketType)
    } else if ai_recommended_resolution_time < current_time {
        Some(ErrorCode::InvalidDeadline)
    } else if on_cooldown(creator_profile, current_time) {
        Some(ErrorCode::CreatorOnCooldown)
    } else if creator_fee_bps matches Some(fee) && fee > MAX_CREATOR_FEE_BPS {
        Some(ErrorCode::ExcessiveCreatorFee)
    } else if creator_profile.markets_created + 1 > u32::MAX {
        Some(ErrorCode::ArithmeticOverflow)
    } else {
        None
    }
}

/// The market that a creation makes: unresolved, with an empty pool and a
/// zero total for every outcome.
pub open spec fn created_market(
    market_key: Identity,
    creator: Identity,
    question: Seq<char>,
    outcomes: Seq<Seq<char>>,
    ai_score: Score,
    ai_recommended_resolution_time: i64,
    market_type: MarketType,
    creator_fee_bps: Option<u16>,
    ai_resolvable: Option<bool>,
    bump: u8,
) -> MarketView {
    MarketView {
        key: market_key,
        creator,
        question,
        outcomes,
        ai_score,
        market_type,
        deadline: ai_recommended_resolution_time,
        ai_suggested_deadline: ai_recommended_resolution_time,
        resolved: false,
        winning_outcome: None,
        total_pool: 0,
        creator_fee_bps: match creator_fee_bps {
            Some(fee) => fee,
            None => DEFAULT_CREATOR_FEE_BPS,
        },
        protocol_fee_bps: PROTOCOL_FEE_BPS,
        stakes_per_outcome: Seq::new(outcomes.len(), |i: int| 0u64),
        ai_resolvable: match ai_resolvable {
            Some(resolvable) => resolvable,
            None => true,
        },
        bump,
    }
}

/// Creates a market for `creator` under the identity `market_key`.
///
/// The creation succeeds when the profile is the creator's, there are at
/// most five outcomes, the score is at least 0.7, the classification names
/// a market kind, the deadline is not in the past, the creator is not on
/// cooldown, the fee asked for is at most 5%, and the creator's market
/// count stays in range. It then hands back the new market, books the
/// creation on the profile, and announces it. A creation that is rejected
/// changes nothing.
pub fn create_market(
    creator_profile: &mut CreatorProfile,
    creator: Identity,
    market_key: Identity,
    question: String,
    outcomes: Vec<String>,
    ai_score: Score,
    ai_recommended_resolution_time: i64,
    ai_classification: u8,
    creator_fee_bps: Option<u16>,
    ai_resolvable: Option<bool>,
    current_time: i64,
    bump: u8,
) -> (result: Result<MarketCreation, ErrorCode>)
    ensures
        match result {
            Ok(creation) => {
                &&& creation_rejection(
                    *old(creator_profile),
                    creator,
                    outcomes@.len(),
                    ai_score,
                    ai_recommended_resolution_time,
                    ai_classification,
                    creator_fee_bps,
                    current_time,
                ) is None
                &&& creation.market@ == created_market(
                    market_key,
                    creator,
                    question@,
                    outcomes.deep_view(),
                    ai_score,
                    ai_recommended_resolution_time,
                    MarketType::spec_from_code(ai_classification)->Some_0,
                    creator_fee_bps,
                    ai_resolvable,
                    bump,
                )
                &&& creation.market@.wf()
                &&& creation.created_event.market == market_key
                &&& creation.created_event.creator == creator
                &&& creation.created_event.question@ == question@
                &&& creation.created_event.deadline == ai_recommended_resolution_time
                &&& creation.created_event.market_type == ai_classification
                &&& *final(creator_profile) == (CreatorProfile {
                    last_created_at: current_time,
                    markets_created: (old(creator_profile).markets_created + 1) as u32,
                    ..*old(creator_profile)
                })
            },
            Err(error) => {
                &&& creation_rejection(
                    *old(creator_profile),
                    creator,
                    outcomes@.len(),
                    ai_score,
                    ai_recommended_resolution_time,
                    ai_classification,
                    creator_fee_bps,
                    current_time,
                ) == Some(error)
                &&& *final(creator_profile) == *old(creator_profile)
            },
        },
{
    if creator_profile.creator != creator {
        return Err(ErrorCode::Unauthorized);
    }
    if outcomes.len() > MAX_OUTCOMES {
        return Err(ErrorCode::TooManyOutcomes);
    }
    if !ai_score.meets_creation_score() {
        return Err(ErrorCode::LowAIScore);
    }
    let market_type: MarketType = match MarketType::from_code(ai_classification) {
        Some(kind) => kind,
        None => {
            return Err(ErrorCode::InvalidMarketType);
        },
    };
    if ai_recommended_resolution_time < current_time {
        return Err(ErrorCode::InvalidDeadline);
    }
    if creator_profile.tier == 0 && creator_profile.last_created_at > 0 {
        let waited: i128 = current_time as i128 - creator_profile.last_created_at as i128;
        if waited < CREATOR_COOLDOWN_SECONDS as i128 {
            return Err(ErrorCode::CreatorOnCooldown);
        }
    }
    let fee_bps: u16 = match creator_fee_bps {
        Some(fee) => {
            if fee > MAX_CREATOR_FEE_BPS {
                return Err(ErrorCode::ExcessiveCreatorFee);
            }
            fee
        },
        None => DEFAULT_CREATOR_FEE_BPS,
    };
    let markets_created: u32 = match creator_profile.markets_created.checked_add(1) {
        Some(count) => count,
        None => {
            return Err(ErrorCode::ArithmeticOverflow);
        },
    };
    let stakes_per_outcome: Vec<u64> = zero_amounts(outcomes.len());
    let created_event = MarketCreatedEvent {
        market: market_key,
        creator,
        question: question.clone(),
        deadline: ai_recommended_resolution_time,
        market_type: ai_classification,
    };
    let market = Market {
        key: market_key,
        creator,
        question,
        outcomes,
        ai_score,
        market_type,
        deadline: ai_recommended_resolution_time,
        ai_suggested_deadline: ai_recommended_resolution_time,
        resolved: false,
        winning_outcome: None,
        total_pool: 0,
        creator_fee_bps: fee_bps,
        protocol_fee_bps: PROTOCOL_FEE_BPS,
        stakes_per_outcome,
        ai_resolvable: match ai_resolvable {
            Some(resolvable) => resolvable,
            None => true,
        },
        bump,
    };
    creator_profile.last_created_at = current_time;
    creator_profile.markets_created = markets_created;
    Ok(MarketCreation { market, created_event })
}

} // verus!
