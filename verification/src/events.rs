//! Announcements that an operation hands back for the host to publish.

use vstd::prelude::*;
use crate::identity::Identity;

verus! {

/// A market was created.
#[derive(Clone, Debug)]
pub struct MarketCreatedEvent {
    pub market: Identity,
    pub creator: Identity,
    pub question: String,
    pub deadline: i64,
    pub market_type: u8,
}

/// A participant staked on an outcome.
#[derive(Clone, Copy, PartialEq, Eq, Structural, Debug)]
pub struct PredictionStakedEvent {
    pub user: Identity,
    pub market: Identity,
    pub outcome_index: u8,
    pub amount: u64,
    pub timestamp: i64,
}

/// A winner claimed a reward.
#[derive(Clone, Copy, PartialEq, Eq, Structural, Debug)]
pub struct RewardClaimedEvent {
    pub user: Identity,
    pub market: Identity,
    pub amount: u64,
    pub outcome_index: u8,
    pub winning_stake: u64,
    pub total_stake: u64,
}

/// A creator moved up one tier.
#[derive(Clone, Copy, PartialEq, Eq, Structural, Debug)]
pub struct CreatorTierChangedEvent {
    pub creator: Identity,
    pub previous_tier: u8,
    pub new_tier: u8,
    pub markets_count: u32,
    pub total_volume: u64,
    pub traction_score: u64,
}

} // verus!
