//! Creator and participant profiles, and the creator tiers.

use vstd::prelude::*;
use crate::events::CreatorTierChangedEvent;
use crate::identity::Identity;

verus! {

/// What a creator has done so far, and the tier earned with it.
#[derive(Clone, Copy, PartialEq, Eq, Structural, Debug)]
pub struct CreatorProfile {
    pub creator: Identity,
    pub last_created_at: i64,
    pub markets_created: u32,
    pub total_volume: u64,
    pub traction_score: u64,
    pub tier: u8,
    pub bump: u8,
}

/// What a participant has staked and won so far.
#[derive(Clone, Copy, PartialEq, Eq, Structural, Debug)]
pub struct UserProfile {
    pub user: Identity,
    pub total_staked: u64,
    pub total_winnings: u64,
    pub total_predictions: u32,
    pub winning_predictions: u32,
    pub last_active_ts: i64,
    pub bump: u8,
}

/// The volume, market count and traction that lift a creator out of `tier`,
/// or `None` at the highest tier.
pub open spec fn next_tier_threshold(tier: u8) -> Option<(u64, u32, u64)> {
    if tier == 0 {
        Some((1_000u64, 5u32, 100u64))
    } else if tier == 1 {
        Some((10_000u64, 20u32, 300u64))
    } else if tier == 2 {
        Some((50_000u64, 50u32, 500u64))
    } else if tier == 3 {
        Some((200_000u64, 100u32, 1000u64))
    } else {
        None
    }
}

impl CreatorProfile {
    /// Whether the creator has reached all three thresholds of the next tier.
    pub open spec fn promotion_due(self) -> bool {
        match next_tier_threshold(self.tier) {
            Some(threshold) => {
                &&& self.total_volume >= threshold.0
                &&& self.markets_created >= threshold.1
                &&& self.traction_score >= threshold.2
            },
            None => false,
        }
    }

    /// The profile after the promotion that is due, if one is.
    pub open spec fn promoted(self) -> CreatorProfile {
        if self.promotion_due() {
            CreatorProfile { tier: (self.tier + 1) as u8, ..self }
        } else {
            self
        }
    }

    /// The announcement of the promotion that is due, if one is.
    pub open spec fn promotion_event(self) -> Option<CreatorTierChangedEvent> {
        if self.promotion_due() {
            Some(
                CreatorTierChangedEvent {
                    creator: self.creator,
                    previous_tier: self.tier,
                    new_tier: (self.tier + 1) as u8,
                    markets_count: self.markets_created,
                    total_volume: self.total_volume,
                    traction_score: self.traction_score,
                },
            )
        } else {
            None
        }
    }

    /// The tier that the creator's record alone entitles to: the highest
    /// tier whose market count, volume and, from tier 3 on, traction are
    /// all reached.
    pub open spec fn entitled_tier(self) -> u8 {
        if self.markets_created >= 100 && self.total_volume >= 200_000 && self.traction_score
            >= 1000 {
            4
        } else if self.markets_created >= 50 && self.total_volume >= 50_000
            && self.traction_score >= 500 {
            3
        } else if self.markets_created >= 20 && self.total_volume >= 10_000 {
            2
        } else if self.markets_created >= 5 && self.total_volume >= 1_000 {
            1
        } else {
            0
        }
    }

    /// The profile after its traction grew by `gain`.
    pub open spec fn with_traction(self, gain: u64) -> CreatorProfile {
        CreatorProfile { traction_score: (self.traction_score + gain) as u64, ..self }
    }

    /// The profile after `amount` was staked on one of the creator's
    /// markets: the volume grows by the amount, the traction by one and by
    /// one more for every full thousand staked.
    pub open spec fn with_staked_volume(self, amount: u64) -> CreatorProfile {
        CreatorProfile {
            total_volume: (self.total_volume + amount) as u64,
            traction_score: (self.traction_score + amount / 1000 + 1) as u64,
            ..self
        }
    }

    /// Whether volume and traction stay in range when `amount` is staked.
    pub open spec fn can_take_stake(self, amount: u64) -> bool {
        &&& self.total_volume + amount <= u64::MAX
        &&& self.traction_score + amount / 1000 + 1 <= u64::MAX
    }

    /// Lifts the creator by one tier if the next tier's thresholds are
    /// reached, and hands back the announcement of the change.
    pub fn promote_if_due(&mut self) -> (event: Option<CreatorTierChangedEvent>)
        ensures
            *final(self) == old(self).promoted(),
            event == old(self).promotion_event(),
    {
        match get_next_tier_threshold(self) {
            Some(threshold) => {
                if self.total_volume >= threshold.0 && self.markets_created >= threshold.1
                    && self.traction_score >= threshold.2 {
                    let previous_tier: u8 = self.tier;
                    self.tier = previous_tier + 1;
                    Some(
                        CreatorTierChangedEvent {
                            creator: self.creator,
                            previous_tier,
                            new_tier: self.tier,
                            markets_count: self.markets_created,
                            total_volume: self.total_volume,
                            traction_score: self.traction_score,
                        },
                    )
                } else {
                    None
                }
            },
            None => None,
        }
    }
}

impl UserProfile {
    /// Whether the totals stay in range when a stake of `amount` is added.
    pub open spec fn can_take_stake(self, amount: u64) -> bool {
        &&& self.total_staked + amount <= u64::MAX
        &&& self.total_predictions + 1 <= u32::MAX
    }

    /// The profile after a stake of `amount` at `current_time`.
    pub open spec fn with_stake(self, amount: u64, current_time: i64) -> UserProfile {
        UserProfile {
            total_staked: (self.total_staked + amount) as u64,
            total_predictions: (self.total_predictions + 1) as u32,
            last_active_ts: current_time,
            ..self
        }
    }

    /// Whether the totals stay in range when a win of `reward` is added.
    pub open spec fn can_take_win(self, reward: u64) -> bool {
        &&& self.total_winnings + reward <= u64::MAX
        &&& self.winning_predictions + 1 <= u32::MAX
    }

    /// The profile after a win of `reward` at `current_time`.
    pub open spec fn with_win(self, reward: u64, current_time: i64) -> UserProfile {
        UserProfile {
            total_winnings: (self.total_winnings + reward) as u64,
            winning_predictions: (self.winning_predictions + 1) as u32,
            last_active_ts: current_time,
            ..self
        }
    }
}

/// The volume, market count and traction that lift `profile` to the next
/// tier, or `None` at the highest tier.
pub fn get_next_tier_threshold(profile: &CreatorProfile) -> (threshold: Option<(u64, u32, u64)>)
    ensures
        threshold == next_tier_threshold(profile.tier),
{
    match profile.tier {
        0 => Some((1_000, 5, 100)),
        1 => Some((10_000, 20, 300)),
        2 => Some((50_000, 50, 500)),
        3 => Some((200_000, 100, 1000)),
        _ => None,
    }
}

/// A fresh profile for `creator`: nothing created, tier 0.
pub fn create_creator_profile(creator: Identity, bump: u8) -> (profile: CreatorProfile)
    ensures
        profile == (CreatorProfile {
            creator,
            last_created_at: 0,
            markets_created: 0,
            total_volume: 0,
            traction_score: 0,
            tier: 0,
            bump,
        }),
{
    CreatorProfile {
        creator,
        last_created_at: 0,
        markets_created: 0,
        total_volume: 0,
        traction_score: 0,
        tier: 0,
        bump,
    }
}

/// A fresh profile for `user`, last active at `current_time`.
pub fn initialize_user_profile(user: Identity, current_time: i64, bump: u8) -> (profile:
    UserProfile)
    ensures
        profile == (UserProfile {
            user,
            total_staked: 0,
            total_winnings: 0,
            total_predictions: 0,
            winning_predictions: 0,
            last_active_ts: current_time,
            bump,
        }),
{
    UserProfile {
        user,
        total_staked: 0,
        total_winnings: 0,
        total_predictions: 0,
        winning_predictions: 0,
        last_active_ts: current_time,
        bump,
    }
}

/// Sets the creator's tier to the one the record entitles to, and says
/// whether that changed it.
pub fn update_creator_tier(creator_profile: &mut CreatorProfile) -> (changed: bool)
    ensures
        *final(creator_profile) == (CreatorProfile {
            tier: old(creator_profile).entitled_tier(),
            ..*old(creator_profile)
        }),
        changed == (old(creator_profile).tier != old(creator_profile).entitled_tier()),
{
    let current_tier: u8 = creator_profile.tier;
    let new_tier: u8 = if creator_profile.markets_created >= 100 && creator_profile.total_volume
        >= 200_000 && creator_profile.traction_score >= 1000 {
        4
    } else if creator_profile.markets_created >= 50 && creator_profile.total_volume >= 50_000
        && creator_profile.traction_score >= 500 {
        3
    } else if creator_profile.markets_created >= 20 && creator_profile.total_volume >= 10_000 {
        2
    } else if creator_profile.markets_created >= 5 && creator_profile.total_volume >= 1_000 {
        1
    } else {
        0
    };
    if new_tier != current_tier {
        creator_profile.tier = new_tier;
        true
    } else {
        false
    }
}

impl Default for CreatorProfile {
    /// The profile of nobody: nothing created, tier 0.
    fn default() -> (profile: CreatorProfile)
        ensures
            profile == (CreatorProfile {
                creator: Identity { hi: 0, lo: 0 },
                last_created_at: 0,
                markets_created: 0,
                total_volume: 0,
                traction_score: 0,
                tier: 0,
                bump: 0,
            }),
    {
        CreatorProfile {
            creator: Identity { hi: 0, lo: 0 },
            last_created_at: 0,
            markets_created: 0,
            total_volume: 0,
            traction_score: 0,
            tier: 0,
            bump: 0,
        }
    }
}

} // verus!
