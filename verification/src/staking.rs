//! Placing a stake on an outcome of an open market.

use vstd::prelude::*;
use crate::error::ErrorCode;
use crate::events::{CreatorTierChangedEvent, PredictionStakedEvent};
use crate::identity::Identity;
use crate::market::{stake_rejection, Market, MarketView};
use crate::profile::{CreatorProfile, UserProfile};
use crate::records::Prediction;

verus! {

/// What a successful stake hands back.
#[derive(Clone, Copy, PartialEq, Eq, Structural, Debug)]
pub struct StakeReceipt {
    /// The participant's new prediction. Its amount is what the host moves
    /// from the participant into the settlement vault.
    pub prediction: Prediction,
    /// The announcement of the stake.
    pub staked_event: PredictionStakedEvent,
    /// The announcement of the creator's promotion, if the stake caused one.
    pub tier_event: Option<CreatorTierChangedEvent>,
}

/// Whether the profiles handed to a stake belong to it: the creator's
/// profile is that of the market's creator, and the participant's profile,
/// if there is one, is that of the staker.
pub open spec fn stake_records_match(
    market: MarketView,
    creator_profile: CreatorProfile,
    user_profile: Option<UserProfile>,
    user: Identity,
) -> bool {
    &&& creator_profile.creator == market.creator
    &&& user_profile matches Some(profile) ==> profile.user == user
}

/// Why a stake is rejected, or `None` where it is taken. The conditions
/// are tested in the order written.
pub open spec fn stake_prediction_rejection(
    market: MarketView,
    creator_profile: CreatorProfile,
    user_profile: Option<UserProfile>,
    user: Identity,
    outcome_index: u8,
    amount: u64,
    current_time: i64,
) -> Option<ErrorCode> {
    if !stake_records_match(market, creator_profile, user_profile, user) {
        Some(ErrorCode::Unauthorized)
    } else if stake_rejection(market, outcome_index, amount, current_time) is Some {
        stake_rejection(market, outcome_index, amount, current_time)
    } else if !creator_profile.can_take_stake(amount) {
        Some(ErrorCode::ArithmeticOverflow)
    } else if user_profile matches Some(profile) && !profile.can_take_stake(amount) {
        Some(ErrorCode::ArithmeticOverflow)
    } else {
        None
    }
}

/// The prediction that a stake creates.
pub open spec fn staked_prediction(
    market: MarketView,
    user: Identity,
    outcome_index: u8,
    amount: u64,
    current_time: i64,
    bump: u8,
) -> Prediction {
    Prediction {
        user,
        market: market.key,
        outcome_index,
        amount,
        timestamp: current_time,
        claimed: false,
        bump,
    }
}

/// The staker's profile after a stake of `amount`.
pub open spec fn staker_after(user_profile: Option<UserProfile>, amount: u64, current_time: i64)
    -> Option<UserProfile> {
    match user_profile {
        Some(profile) => Some(profile.with_stake(amount, current_time)),
        None => None,
    }
}

/// What a stake hands back.
pub open spec fn stake_receipt(
    market: MarketView,
    creator_profile: CreatorProfile,
    user: Identity,
    outcome_index: u8,
    amount: u64,
    current_time: i64,
    bump: u8,
) -> StakeReceipt {
    StakeReceipt {
        prediction: staked_prediction(market, user, outcome_index, amount, current_time, bump),
        staked_event: PredictionStakedEvent {
            user,
            market: market.key,
            outcome_index,
            amount,
            timestamp: current_time,
        },
        tier_event: creator_profile.with_staked_volume(amount).promotion_event(),
    }
}

/// Stakes `amount` for `user` on `outcome_index` of `market`.
///
/// The stake is taken when the profiles belong to it, the market is open
/// (the outcome exists, the market is unresolved, the deadline lies ahead)
/// and every total stays in range. It then adds the amount to the
/// outcome's total and to the pool, books it on the profiles, makes a
/// promotion of the creator that is then due, and hands back the new
/// prediction. A stake that is rejected changes nothing.
///
/// The host moves the amount from the participant into the settlement vault
/// and keeps the updated records only if that succeeds. A participant holds
/// one prediction on a market at most: whoever keeps the records turns a
/// second stake away, as [`crate::book::MarketBook::stake`] does.
///
/// The market has to be well formed, which [`Market::is_well_formed`]
/// tests.
pub fn stake_prediction(
    market: &mut Market,
    creator_profile: &mut CreatorProfile,
    user_profile: &mut Option<UserProfile>,
    user: Identity,
    outcome_index: u8,
    amount: u64,
    current_time: i64,
    bump: u8,
) -> (result: Result<StakeReceipt, ErrorCode>)
    requires
        old(market)@.wf(),
    ensures
        match result {
            Ok(receipt) => {
                &&& stake_prediction_rejection(
                    old(market)@,
                    *old(creator_profile),
                    *old(user_profile),
                    user,
                    outcome_index,
                    amount,
                    current_time,
                ) is None
                &&& receipt == stake_receipt(
                    old(market)@,
                    *old(creator_profile),
                    user,
                    outcome_index,
                    amount,
                    current_time,
                    bump,
                )
                &&& final(market)@ == old(market)@.with_stake(outcome_index, amount)
                &&& final(market)@.wf()
                &&& *final(creator_profile) == old(creator_profile).with_staked_volume(
                    amount,
                ).promoted()
                &&& *final(user_profile) == staker_after(*old(user_profile), amount, current_time)
            },
            Err(error) => {
                &&& stake_prediction_rejection(
                    old(market)@,
                    *old(creator_profile),
                    *old(user_profile),
                    user,
                    outcome_index,
                    amount,
                    current_time,
                ) == Some(error)
                &&& *final(market) == *old(market)
                &&& *final(creator_profile) == *old(creator_profile)
                &&& *final(user_profile) == *old(user_profile)
            },
        },
{
    let creator: CreatorProfile = *creator_profile;
    let staker: Option<UserProfile> = *user_profile;
    if creator.creator != market.creator {
        return Err(ErrorCode::Unauthorized);
    }
    match staker {
        Some(profile) => {
            if profile.user != user {
                return Err(ErrorCode::Unauthorized);
            }
        },
        None => {},
    }
    match market.check_stake(outcome_index, amount, current_time) {
        Ok(()) => {},
        Err(error) => {
            return Err(error);
        },
    }
    let total_volume: u64 = match creator.total_volume.checked_add(amount) {
        Some(volume) => volume,
        None => {
            return Err(ErrorCode::ArithmeticOverflow);
        },
    };
    let traction_score: u64 = match creator.traction_score.checked_add(amount / 1000 + 1) {
        Some(score) => score,
        None => {
            return Err(ErrorCode::ArithmeticOverflow);
        },
    };
    let staker_then: Option<UserProfile> = match staker {
        Some(profile) => {
            let total_staked: u64 = match profile.total_staked.checked_add(amount) {
                Some(total) => total,
                None => {
                    return Err(ErrorCode::ArithmeticOverflow);
                },
            };
            let total_predictions: u32 = match profile.total_predictions.checked_add(1) {
                Some(count) => count,
                None => {
                    return Err(ErrorCode::ArithmeticOverflow);
                },
            };
            Some(
                UserProfile {
                    total_staked,
                    total_predictions,
                    last_active_ts: current_time,
                    ..profile
                },
            )
        },
        None => None,
    };
    match market.record_stake(outcome_index, amount, current_time) {
        Ok(_) => {},
        Err(error) => {
            return Err(error);
        },
    }
    let mut creator_then: CreatorProfile =
        CreatorProfile { total_volume, traction_score, ..creator };
    let tier_event: Option<CreatorTierChangedEvent> = creator_then.promote_if_due();
    *creator_profile = creator_then;
    *user_profile = staker_then;
    Ok(
        StakeReceipt {
            prediction: Prediction {
                user,
                market: market.key,
                outcome_index,
                amount,
                timestamp: current_time,
                claimed: false,
                bump,
            },
            staked_event: PredictionStakedEvent {
                user,
                market: market.key,
                outcome_index,
                amount,
                timestamp: current_time,
            },
            tier_event,
        },
    )
}

} // verus!
