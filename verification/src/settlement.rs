//! Payout arithmetic and reward claims.

use vstd::prelude::*;
use crate::error::ErrorCode;
use crate::events::{CreatorTierChangedEvent, RewardClaimedEvent};
use crate::identity::Identity;
use crate::market::{Market, MarketView};
use crate::profile::{CreatorProfile, UserProfile};
use crate::records::Prediction;

verus! {

/// Fee rates are given in parts of ten thousand.
pub const BPS_DENOMINATOR: u128 = 10_000;

/// One winner's part of the pool and how it is split.
#[derive(Clone, Copy, PartialEq, Eq, Structural, Debug)]
pub struct Settlement {
    /// The winner's part of the pool before fees.
    pub user_share: u128,
    /// What the market's creator receives out of it.
    pub creator_fee: u64,
    /// What the protocol receives out of it.
    pub protocol_fee: u64,
    /// What is left for the winner.
    pub reward: u64,
}

/// Who receives a transfer out of the settlement vault.
#[derive(Clone, Copy, PartialEq, Eq, Structural, Debug)]
pub enum Recipient {
    Participant,
    Creator,
    Protocol,
}

/// An amount to move out of the settlement vault.
#[derive(Clone, Copy, PartialEq, Eq, Structural, Debug)]
pub struct Transfer {
    pub recipient: Recipient,
    pub amount: u64,
}

/// The part of `total_pool` that falls to `user_stake` out of
/// `total_winning_stakes`, rounded down.
pub open spec fn user_share(user_stake: nat, total_pool: nat, total_winning_stakes: nat) -> nat
    recommends
        total_winning_stakes > 0,
{
    (user_stake * total_pool) / total_winning_stakes
}

/// The fee at `fee_bps` parts of ten thousand on `share`, rounded down.
pub open spec fn fee_on(share: nat, fee_bps: nat) -> nat {
    (share * fee_bps) / 10_000
}

/// Whether every step of the payout computation stays in range: both fee
/// products fit 128 bits, the fees together do not exceed the share, and
/// each amount to transfer fits 64 bits.
pub open spec fn settlement_in_range(
    user_stake: u64,
    total_pool: u64,
    total_winning_stakes: u64,
    creator_fee_bps: u16,
    protocol_fee_bps: u16,
) -> bool
    recommends
        total_winning_stakes > 0,
{
    let share = user_share(user_stake as nat, total_pool as nat, total_winning_stakes as nat);
    let creator_fee = fee_on(share, creator_fee_bps as nat);
    let protocol_fee = fee_on(share, protocol_fee_bps as nat);
    &&& share * creator_fee_bps <= u128::MAX
    &&& share * protocol_fee_bps <= u128::MAX
    &&& creator_fee + protocol_fee <= share
    &&& creator_fee <= u64::MAX
    &&& protocol_fee <= u64::MAX
    &&& share - creator_fee - protocol_fee <= u64::MAX
}

/// The settlement of `user_stake`: rejected when nothing was staked on the
/// winning outcome or when a step leaves its range, else the share, the
/// two fees, and the share less both fees.
pub open spec fn settle(
    user_stake: u64,
    total_pool: u64,
    total_winning_stakes: u64,
    creator_fee_bps: u16,
    protocol_fee_bps: u16,
) -> Result<Settlement, ErrorCode> {
    let share = user_share(user_stake as nat, total_pool as nat, total_winning_stakes as nat);
    let creator_fee = fee_on(share, creator_fee_bps as nat);
    let protocol_fee = fee_on(share, protocol_fee_bps as nat);
    if total_winning_stakes == 0 {
        Err(ErrorCode::InvalidDistribution)
    } else if !settlement_in_range(
        user_stake,
        total_pool,
        total_winning_stakes,
        creator_fee_bps,
        protocol_fee_bps,
    ) {
        Err(ErrorCode::ArithmeticOverflow)
    } else {
        Ok(
            Settlement {
                user_share: share as u128,
                creator_fee: creator_fee as u64,
                protocol_fee: protocol_fee as u64,
                reward: (share - creator_fee - protocol_fee) as u64,
            },
        )
    }
}

/// The product of two 64-bit amounts fits 128 bits.
proof fn lemma_product_fits(a: u64, b: u64)
    ensures
        a * b <= u128::MAX,
{
    assert(a * b <= 0xFFFF_FFFF_FFFF_FFFF * 0xFFFF_FFFF_FFFF_FFFF) by (nonlinear_arith)
        requires
            0 <= a <= 0xFFFF_FFFF_FFFF_FFFF,
            0 <= b <= 0xFFFF_FFFF_FFFF_FFFF,
    ;
}

/// Computes one winner's settlement.
pub fn compute_settlement(
    user_stake: u64,
    total_pool: u64,
    total_winning_stakes: u64,
    creator_fee_bps: u16,
    protocol_fee_bps: u16,
) -> (result: Result<Settlement, ErrorCode>)
    ensures
        result == settle(
            user_stake,
            total_pool,
            total_winning_stakes,
            creator_fee_bps,
            protocol_fee_bps,
        ),
{
    if total_winning_stakes == 0 {
        return Err(ErrorCode::InvalidDistribution);
    }
    proof {
        lemma_product_fits(user_stake, total_pool);
    }
    let numerator: u128 = (user_stake as u128) * (total_pool as u128);
    let share: u128 = numerator / (total_winning_stakes as u128);
    let creator_fee: u128 = match share.checked_mul(creator_fee_bps as u128) {
        Some(product) => product / BPS_DENOMINATOR,
        None => {
            return Err(ErrorCode::ArithmeticOverflow);
        },
    };
    let protocol_fee: u128 = match share.checked_mul(protocol_fee_bps as u128) {
        Some(product) => product / BPS_DENOMINATOR,
        None => {
            return Err(ErrorCode::ArithmeticOverflow);
        },
    };
    let after_creator_fee: u128 = match share.checked_sub(creator_fee) {
        Some(rest) => rest,
        None => {
            return Err(ErrorCode::ArithmeticOverflow);
        },
    };
    let reward: u128 = match after_creator_fee.checked_sub(protocol_fee) {
        Some(rest) => rest,
        None => {
            return Err(ErrorCode::ArithmeticOverflow);
        },
    };
    if creator_fee > u64::MAX as u128 || protocol_fee > u64::MAX as u128 || reward
        > u64::MAX as u128 {
        return Err(ErrorCode::ArithmeticOverflow);
    }
    Ok(
        Settlement {
            user_share: share,
            creator_fee: creator_fee as u64,
            protocol_fee: protocol_fee as u64,
            reward: reward as u64,
        },
    )
}

impl Settlement {
    /// The transfer of `amount` to `recipient`, or none if the amount is zero.
    pub open spec fn transfer_if_nonzero(recipient: Recipient, amount: u64) -> Seq<Transfer> {
        if amount > 0 {
            seq![Transfer { recipient, amount }]
        } else {
            Seq::empty()
        }
    }

    /// The transfers that carry the settlement out: the reward, the
    /// creator's fee and the protocol's fee, in this order, each only if
    /// its amount is not zero.
    pub open spec fn spec_transfers(self) -> Seq<Transfer> {
        Self::transfer_if_nonzero(Recipient::Participant, self.reward)
            + Self::transfer_if_nonzero(Recipient::Creator, self.creator_fee)
            + Self::transfer_if_nonzero(Recipient::Protocol, self.protocol_fee)
    }

    /// The transfers that carry the settlement out.
    pub fn transfers(&self) -> (orders: Vec<Transfer>)
        ensures
            orders@ == self.spec_transfers(),
    {
        let mut orders: Vec<Transfer> = Vec::new();
        if self.reward > 0 {
            orders.push(Transfer { recipient: Recipient::Participant, amount: self.reward });
        }
        if self.creator_fee > 0 {
            orders.push(Transfer { recipient: Recipient::Creator, amount: self.creator_fee });
        }
        if self.protocol_fee > 0 {
            orders.push(Transfer { recipient: Recipient::Protocol, amount: self.protocol_fee });
        }
        orders
    }
}

/// What a successful claim hands back.
#[derive(Clone, Copy, PartialEq, Eq, Structural, Debug)]
pub struct ClaimReceipt {
    /// The amounts to move out of the settlement vault.
    pub settlement: Settlement,
    /// The announcement of the claim.
    pub claimed_event: RewardClaimedEvent,
    /// The announcement of the creator's promotion, if the claim caused one.
    pub tier_event: Option<CreatorTierChangedEvent>,
}

/// The traction a creator gains when a reward is claimed on one of their
/// markets: five, and one more for every full five hundred of the reward.
pub open spec fn claim_traction(reward: u64) -> u64 {
    (reward / 500 + 5) as u64
}

/// What was staked in total on the market's winning outcome; zero where
/// the market has no winner or the winner is none of its outcomes.
pub open spec fn winning_stakes(market: MarketView) -> u64 {
    match market.winning_outcome {
        Some(winner) => if (winner as int) < market.stakes_per_outcome.len() {
            market.stakes_per_outcome[winner as int]
        } else {
            0
        },
        None => 0,
    }
}

/// The settlement that `prediction` is entitled to on `market`.
pub open spec fn claim_settlement(market: MarketView, prediction: Prediction) -> Result<
    Settlement,
    ErrorCode,
> {
    settle(
        prediction.amount,
        market.total_pool,
        winning_stakes(market),
        market.creator_fee_bps,
        market.protocol_fee_bps,
    )
}

/// Whether the records handed to a claim belong together: the prediction
/// is the claimant's and on this market, and the profiles are the
/// claimant's and the market creator's.
pub open spec fn claim_records_match(
    market: MarketView,
    prediction: Prediction,
    user_profile: Option<UserProfile>,
    creator_profile: Option<CreatorProfile>,
    user: Identity,
) -> bool {
    &&& prediction.user == user
    &&& prediction.market == market.key
    &&& user_profile matches Some(profile) ==> profile.user == user
    &&& creator_profile matches Some(profile) ==> profile.creator == market.creator
}

/// Why a claim is rejected, or `None` where it succeeds. The conditions
/// are tested in the order written.
pub open spec fn claim_rejection(
    market: MarketView,
    prediction: Prediction,
    user_profile: Option<UserProfile>,
    creator_profile: Option<CreatorProfile>,
    user: Identity,
) -> Option<ErrorCode> {
    if !claim_records_match(market, prediction, user_profile, creator_profile, user) {
        Some(ErrorCode::Unauthorized)
    } else if !market.resolved {
        Some(ErrorCode::MarketNotResolved)
    } else if prediction.claimed {
        Some(ErrorCode::RewardAlreadyClaimed)
    } else if market.winning_outcome is None {
        Some(ErrorCode::NoWinningOutcome)
    } else if market.winning_outcome != Some(prediction.outcome_index) {
        Some(ErrorCode::NotWinningPrediction)
    } else {
        match claim_settlement(market, prediction) {
            Err(error) => Some(error),
            Ok(settlement) => {
                if user_profile matches Some(profile) && !profile.can_take_win(
                    settlement.reward,
                ) {
                    Some(ErrorCode::ArithmeticOverflow)
                } else if creator_profile matches Some(profile) && profile.traction_score
                    + claim_traction(settlement.reward) > u64::MAX {
                    Some(ErrorCode::ArithmeticOverflow)
                } else {
                    None
                }
            },
        }
    }
}

/// The claimant's profile after a claim that paid `reward`.
pub open spec fn claimant_after(
    user_profile: Option<UserProfile>,
    reward: u64,
    current_time: i64,
) -> Option<UserProfile> {
    match user_profile {
        Some(profile) => Some(profile.with_win(reward, current_time)),
        None => None,
    }
}

/// The creator's profile after a claim that paid `reward`: the traction
/// grows, and a promotion that is then due is made.
pub open spec fn creator_after(creator_profile: Option<CreatorProfile>, reward: u64) -> Option<
    CreatorProfile,
> {
    match creator_profile {
        Some(profile) => Some(profile.with_traction(claim_traction(reward)).promoted()),
        None => None,
    }
}

/// What a claim that settles with `settlement` hands back.
pub open spec fn claim_receipt(
    market: MarketView,
    prediction: Prediction,
    creator_profile: Option<CreatorProfile>,
    settlement: Settlement,
) -> ClaimReceipt {
    ClaimReceipt {
        settlement,
        claimed_event: RewardClaimedEvent {
            user: prediction.user,
            market: market.key,
            amount: settlement.reward,
            outcome_index: prediction.outcome_index,
            winning_stake: prediction.amount,
            total_stake: market.total_pool,
        },
        tier_event: match creator_profile {
            Some(profile) => profile.with_traction(
                claim_traction(settlement.reward),
            ).promotion_event(),
            None => None,
        },
    }
}

/// Claims the reward of `prediction` on the resolved `market` for `user`.
///
/// A claim succeeds when the records belong together, the market is
/// resolved, the prediction is unclaimed and names the winning outcome,
/// something was staked on that outcome, and every amount stays in range.
/// It then marks the prediction as claimed, books the win on the profiles
/// that were handed in, and hands back the amounts to transfer. A claim
/// that is rejected changes nothing.
///
/// The host carries out the transfers of the receipt and keeps the updated
/// records only if all of them succeed: a prediction counts as claimed once
/// its reward and fees have been moved.
pub fn claim_reward(
    market: &Market,
    prediction: &mut Prediction,
    user_profile: &mut Option<UserProfile>,
    creator_profile: &mut Option<CreatorProfile>,
    user: Identity,
    current_time: i64,
) -> (result: Result<ClaimReceipt, ErrorCode>)
    ensures
        match result {
            Ok(receipt) => {
                &&& claim_rejection(
                    market@,
                    *old(prediction),
                    *old(user_profile),
                    *old(creator_profile),
                    user,
                ) is None
                &&& claim_settlement(market@, *old(prediction)) == Ok::<Settlement, ErrorCode>(
                    receipt.settlement,
                )
                &&& receipt == claim_receipt(
                    market@,
                    *old(prediction),
                    *old(creator_profile),
                    receipt.settlement,
                )
                &&& *final(prediction) == (Prediction { claimed: true, ..*old(prediction) })
                &&& *final(user_profile) == claimant_after(
                    *old(user_profile),
                    receipt.settlement.reward,
                    current_time,
                )
                &&& *final(creator_profile) == creator_after(
                    *old(creator_profile),
                    receipt.settlement.reward,
                )
            },
            Err(error) => {
                &&& claim_rejection(
                    market@,
                    *old(prediction),
                    *old(user_profile),
                    *old(creator_profile),
                    user,
                ) == Some(error)
                &&& *final(prediction) == *old(prediction)
                &&& *final(user_profile) == *old(user_profile)
                &&& *final(creator_profile) == *old(creator_profile)
            },
        },
{
    if prediction.user != user || prediction.market != market.key {
        return Err(ErrorCode::Unauthorized);
    }
    let claimant: Option<UserProfile> = *user_profile;
    let creator: Option<CreatorProfile> = *creator_profile;
    match claimant {
        Some(profile) => {
            if profile.user != user {
                return Err(ErrorCode::Unauthorized);
            }
        },
        None => {},
    }
    match creator {
        Some(profile) => {
            if profile.creator != market.creator {
                return Err(ErrorCode::Unauthorized);
            }
        },
        None => {},
    }
    if !market.resolved {
        return Err(ErrorCode::MarketNotResolved);
    }
    if prediction.claimed {
        return Err(ErrorCode::RewardAlreadyClaimed);
    }
    let winning_outcome: u8 = match market.winning_outcome {
        Some(winner) => winner,
        None => {
            return Err(ErrorCode::NoWinningOutcome);
        },
    };
    if prediction.outcome_index != winning_outcome {
        return Err(ErrorCode::NotWinningPrediction);
    }
    let total_winning_stakes: u64 = if (winning_outcome as usize)
        < market.stakes_per_outcome.len() {
        market.stakes_per_outcome[winning_outcome as usize]
    } else {
        0
    };
    let settlement: Settlement = match compute_settlement(
        prediction.amount,
        market.total_pool,
        total_winning_stakes,
        market.creator_fee_bps,
        market.protocol_fee_bps,
    ) {
        Ok(settlement) => settlement,
        Err(error) => {
            return Err(error);
        },
    };
    let reward: u64 = settlement.reward;

    let claimant_then: Option<UserProfile> = match claimant {
        Some(profile) => {
            let total_winnings: u64 = match profile.total_winnings.checked_add(reward) {
                Some(total) => total,
                None => {
                    return Err(ErrorCode::ArithmeticOverflow);
                },
            };
            let winning_predictions: u32 = match profile.winning_predictions.checked_add(1) {
                Some(count) => count,
                None => {
                    return Err(ErrorCode::ArithmeticOverflow);
                },
            };
            Some(
                UserProfile {
                    total_winnings,
                    winning_predictions,
                    last_active_ts: current_time,
                    ..profile
                },
            )
        },
        None => None,
    };
    let mut tier_event: Option<CreatorTierChangedEvent> = None;
    let creator_then: Option<CreatorProfile> = match creator {
        Some(profile) => {
            let traction_score: u64 = match profile.traction_score.checked_add(reward / 500 + 5) {
                Some(score) => score,
                None => {
                    return Err(ErrorCode::ArithmeticOverflow);
                },
            };
            let mut grown: CreatorProfile = CreatorProfile { traction_score, ..profile };
            tier_event = grown.promote_if_due();
            Some(grown)
        },
        None => None,
    };

    prediction.claimed = true;
    *user_profile = claimant_then;
    *creator_profile = creator_then;
    Ok(
        ClaimReceipt {
            settlement,
            claimed_event: RewardClaimedEvent {
                user: prediction.user,
                market: market.key,
                amount: reward,
                outcome_index: prediction.outcome_index,
                winning_stake: prediction.amount,
                total_stake: market.total_pool,
            },
            tier_event,
        },
    )
}

/// Rounding a quotient down loses less than one unit: `q = n / d` is the
/// one number with `q * d <= n < (q + 1) * d`.
proof fn lemma_floor_bounds(n: nat, d: nat)
    requires
        d > 0,
    ensures
        (n / d) * d <= n < (n / d + 1) * d,
{
    let q = n / d;
    let r = n % d;
    assert(n == d * q + r) by {
        vstd::arithmetic::div_mod::lemma_fundamental_div_mod(n as int, d as int);
    }
    assert(0 <= r < d) by {
        vstd::arithmetic::div_mod::lemma_mod_bound(n as int, d as int);
    }
    assert(q * d == d * q && (q + 1) * d == d * q + d) by (nonlinear_arith);
}

/// Conservation: a settlement pays out the winner's share and nothing
/// more. The reward and the two fees add up to the share exactly. The
/// share is the winner's exact proportion of the pool rounded down, and the
/// two fees together fall short of the exact fee by less than two units.
pub proof fn lemma_settlement_conserves(
    user_stake: u64,
    total_pool: u64,
    total_winning_stakes: u64,
    creator_fee_bps: u16,
    protocol_fee_bps: u16,
)
    requires
        settle(
            user_stake,
            total_pool,
            total_winning_stakes,
            creator_fee_bps,
            protocol_fee_bps,
        ) is Ok,
    ensures
        ({
            let paid = settle(
                user_stake,
                total_pool,
                total_winning_stakes,
                creator_fee_bps,
                protocol_fee_bps,
            )->Ok_0;
            &&& paid.creator_fee + paid.protocol_fee + paid.reward == paid.user_share
            &&& paid.user_share * total_winning_stakes <= user_stake * total_pool
            &&& user_stake * total_pool < (paid.user_share + 1) * total_winning_stakes
            &&& 10_000 * (paid.creator_fee + paid.protocol_fee) <= paid.user_share * (
            creator_fee_bps + protocol_fee_bps)
            &&& paid.user_share * (creator_fee_bps + protocol_fee_bps) < 10_000 * (
            paid.creator_fee + paid.protocol_fee + 2)
        }),
{
    let share = user_share(user_stake as nat, total_pool as nat, total_winning_stakes as nat);
    let creator_fee = fee_on(share, creator_fee_bps as nat);
    let protocol_fee = fee_on(share, protocol_fee_bps as nat);
    lemma_product_fits(user_stake, total_pool);
    lemma_floor_bounds((user_stake * total_pool) as nat, total_winning_stakes as nat);
    assert(share <= user_stake * total_pool) by (nonlinear_arith)
        requires
            share * total_winning_stakes <= user_stake * total_pool,
            total_winning_stakes >= 1,
    ;
    lemma_floor_bounds(share * creator_fee_bps as nat, 10_000);
    lemma_floor_bounds(share * protocol_fee_bps as nat, 10_000);
    assert(share * (creator_fee_bps + protocol_fee_bps) == share * creator_fee_bps + share
        * protocol_fee_bps) by (nonlinear_arith);
}

/// A settlement succeeds whenever the stake is part of the winning stakes,
/// these are part of the pool, and the two fee rates together do not
/// exceed the whole.
pub proof fn lemma_settlement_succeeds(
    user_stake: u64,
    total_pool: u64,
    total_winning_stakes: u64,
    creator_fee_bps: u16,
    protocol_fee_bps: u16,
)
    requires
        0 < total_winning_stakes,
        user_stake <= total_winning_stakes <= total_pool,
        creator_fee_bps + protocol_fee_bps <= 10_000,
    ensures
        settle(
            user_stake,
            total_pool,
            total_winning_stakes,
            creator_fee_bps,
            protocol_fee_bps,
        ) is Ok,
{
    let share = user_share(user_stake as nat, total_pool as nat, total_winning_stakes as nat);
    let creator_fee = fee_on(share, creator_fee_bps as nat);
    let protocol_fee = fee_on(share, protocol_fee_bps as nat);
    lemma_floor_bounds((user_stake * total_pool) as nat, total_winning_stakes as nat);
    assert(share <= total_pool) by (nonlinear_arith)
        requires
            share * total_winning_stakes <= user_stake * total_pool,
            user_stake <= total_winning_stakes,
            total_winning_stakes >= 1,
            share >= 0,
            total_pool >= 0,
    ;
    lemma_floor_bounds(share * creator_fee_bps as nat, 10_000);
    lemma_floor_bounds(share * protocol_fee_bps as nat, 10_000);
    assert(share * creator_fee_bps + share * protocol_fee_bps <= share * 10_000
        && share * creator_fee_bps <= u128::MAX && share * protocol_fee_bps <= u128::MAX)
        by (nonlinear_arith)
        requires
            creator_fee_bps + protocol_fee_bps <= 10_000,
            0 <= share <= 0xFFFF_FFFF_FFFF_FFFF,
            0 <= creator_fee_bps,
            0 <= protocol_fee_bps,
    ;
}

/// A reward is claimed at most once. A claim on a prediction that is
/// marked as claimed is always rejected. After a claim has succeeded, the
/// same claim made again, on the records as the first one left them, is
/// rejected because the reward was already claimed.
pub proof fn lemma_claim_exactly_once(
    market: MarketView,
    prediction: Prediction,
    user_profile: Option<UserProfile>,
    creator_profile: Option<CreatorProfile>,
    user: Identity,
    current_time: i64,
)
    ensures
        prediction.claimed ==> claim_rejection(
            market,
            prediction,
            user_profile,
            creator_profile,
            user,
        ) is Some,
        claim_rejection(market, prediction, user_profile, creator_profile, user) is None ==> ({
            let reward = claim_settlement(market, prediction)->Ok_0.reward;
            claim_rejection(
                market,
                Prediction { claimed: true, ..prediction },
                claimant_after(user_profile, reward, current_time),
                creator_after(creator_profile, reward),
                user,
            ) == Some(ErrorCode::RewardAlreadyClaimed)
        }),
{
}

} // verus!
