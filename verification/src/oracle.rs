//! One-step resolution of time-bound markets by a trusted oracle.

use vstd::prelude::*;
use crate::error::ErrorCode;
use crate::identity::Identity;
use crate::market::{Market, MarketType, MarketView};
use crate::score::Score;

verus! {

/// Who may submit oracle resolutions, and how many were made.
#[derive(Clone, Copy, PartialEq, Eq, Structural, Debug)]
pub struct AIResolver {
    pub authority: Identity,
    pub active: bool,
    pub resolution_count: u64,
    pub bump: u8,
}

/// The resolver that `admin` sets up: active, with `admin` as its
/// authority and no resolution made.
pub fn initialize_ai_resolver(admin: Identity, bump: u8) -> (resolver: AIResolver)
    ensures
        resolver == (AIResolver { authority: admin, active: true, resolution_count: 0, bump }),
{
    AIResolver { authority: admin, active: true, resolution_count: 0, bump }
}

/// Why an oracle resolution is rejected, or `None` where it is accepted.
/// The conditions are tested in the order written.
pub open spec fn oracle_rejection(
    market: MarketView,
    ai_resolver: AIResolver,
    resolver_authority: Identity,
    winning_outcome_index: u8,
    ai_confidence_score: Score,
    current_time: i64,
) -> Option<ErrorCode> {
    if ai_resolver.authority != resolver_authority {
        Some(ErrorCode::Unauthorized)
    } else if !ai_resolver.active {
        Some(ErrorCode::ResolverInactive)
    } else if market.resolved {
        Some(ErrorCode::MarketAlreadyResolved)
    } else if current_time < market.deadline {
        Some(ErrorCode::MarketNotExpired)
    } else if !ai_confidence_score.spec_meets_resolution_confidence() {
        Some(ErrorCode::LowAIConfidence)
    } else if market.market_type != MarketType::TimeBound {
        Some(ErrorCode::NotTimeBoundMarket)
    } else if !market.has_outcome(winning_outcome_index) {
        Some(ErrorCode::InvalidOutcomeIndex)
    } else if ai_resolver.resolution_count + 1 > u64::MAX {
        Some(ErrorCode::ArithmeticOverflow)
    } else {
        None
    }
}

/// Resolves a time-bound market to `winning_outcome_index` on the word of
/// the oracle.
///
/// The resolution is accepted from the resolver's authority while the
/// resolver is active, on an unresolved time-bound market whose deadline
/// has passed, with a confidence of at least 0.85, for one of the market's
/// outcomes. It resolves the market and counts the resolution. A
/// resolution that is rejected changes nothing.
pub fn resolve_market_via_ai(
    market: &mut Market,
    ai_resolver: &mut AIResolver,
    resolver_authority: Identity,
    winning_outcome_index: u8,
    ai_confidence_score: Score,
    current_time: i64,
) -> (result: Result<(), ErrorCode>)
    ensures
        match result {
            Ok(()) => {
                &&& oracle_rejection(
                    old(market)@,
                    *old(ai_resolver),
                    resolver_authority,
                    winning_outcome_index,
                    ai_confidence_score,
                    current_time,
                ) is None
                &&& final(market)@ == old(market)@.resolved_to(Some(winning_outcome_index))
                &&& *final(ai_resolver) == (AIResolver {
                    resolution_count: (old(ai_resolver).resolution_count + 1) as u64,
                    ..*old(ai_resolver)
                })
            },
            Err(error) => {
                &&& oracle_rejection(
                    old(market)@,
                    *old(ai_resolver),
                    resolver_authority,
                    winning_outcome_index,
                    ai_confidence_score,
                    current_time,
                ) == Some(error)
                &&& *final(market) == *old(market)
                &&& *final(ai_resolver) == *old(ai_resolver)
            },
        },
{
    if ai_resolver.authority != resolver_authority {
        return Err(ErrorCode::Unauthorized);
    }
    if !ai_resolver.active {
        return Err(ErrorCode::ResolverInactive);
    }
    if market.resolved {
        return Err(ErrorCode::MarketAlreadyResolved);
    }
    if current_time < market.deadline {
        return Err(ErrorCode::MarketNotExpired);
    }
    if !ai_confidence_score.meets_resolution_confidence() {
        return Err(ErrorCode::LowAIConfidence);
    }
    if market.market_type != MarketType::TimeBound {
        return Err(ErrorCode::NotTimeBoundMarket);
    }
    if (winning_outcome_index as usize) >= market.outcomes.len() {
        return Err(ErrorCode::InvalidOutcomeIndex);
    }
    let resolution_count: u64 = match ai_resolver.resolution_count.checked_add(1) {
        Some(count) => count,
        None => {
            return Err(ErrorCode::ArithmeticOverflow);
        },
    };
    market.winning_outcome = Some(winning_outcome_index);
    market.resolved = true;
    ai_resolver.resolution_count = resolution_count;
    Ok(())
}

} // verus!
