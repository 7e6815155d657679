//! Protocol-wide statistics.

use vstd::prelude::*;
use crate::error::ErrorCode;
use crate::identity::Identity;
use crate::market::Market;
use crate::records::Prediction;

verus! {

/// How many resolved markets the statistics remember.
pub const MAX_RECENT_MARKETS: usize = 20;

/// Totals over all markets, and the markets resolved most recently.
#[derive(Clone, Debug)]
pub struct ProtocolStats {
    pub total_volume: u64,
    pub total_markets: u32,
    pub total_users: u32,
    pub total_stakes: u64,
    /// The resolved markets seen last, oldest first, each once.
    pub resolved_markets: Vec<Identity>,
    pub last_updated_ts: i64,
    pub bump: u8,
}

/// What the statistics hold, as mathematical values.
pub struct ProtocolStatsView {
    pub total_volume: u64,
    pub total_markets: u32,
    pub total_users: u32,
    pub total_stakes: u64,
    pub resolved_markets: Seq<Identity>,
    pub last_updated_ts: i64,
    pub bump: u8,
}

impl View for ProtocolStats {
    type V = ProtocolStatsView;

    open spec fn view(&self) -> ProtocolStatsView {
        ProtocolStatsView {
            total_volume: self.total_volume,
            total_markets: self.total_markets,
            total_users: self.total_users,
            total_stakes: self.total_stakes,
            resolved_markets: self.resolved_markets@,
            last_updated_ts: self.last_updated_ts,
            bump: self.bump,
        }
    }
}

/// The list of recent markets after `key` was seen resolved: unchanged
/// where it holds the key, else with the key at the end, and without its
/// oldest entry where it was full.
pub open spec fn with_resolved_market(recent: Seq<Identity>, key: Identity) -> Seq<Identity> {
    if recent.contains(key) {
        recent
    } else if recent.len() >= MAX_RECENT_MARKETS {
        recent.remove(0).push(key)
    } else {
        recent.push(key)
    }
}

impl ProtocolStatsView {
    /// Whether the totals stay in range when a market and a prediction, as
    /// far as they are there, are counted.
    pub open spec fn can_count(self, new_market: bool, prediction: Option<Prediction>) -> bool {
        &&& new_market ==> self.total_markets + 1 <= u32::MAX
        &&& prediction matches Some(staked) ==> {
            &&& self.total_volume + staked.amount <= u64::MAX
            &&& self.total_stakes + 1 <= u64::MAX
        }
    }

    /// The statistics after an update at `current_time` that counts a new
    /// market, the stake of `prediction`, and the resolved market of
    /// identity `resolved`, as far as each is there.
    pub open spec fn updated(
        self,
        resolved: Option<Identity>,
        prediction: Option<Prediction>,
        new_market: bool,
        current_time: i64,
    ) -> ProtocolStatsView {
        ProtocolStatsView {
            total_markets: if new_market {
                (self.total_markets + 1) as u32
            } else {
                self.total_markets
            },
            total_volume: match prediction {
                Some(staked) => (self.total_volume + staked.amount) as u64,
                None => self.total_volume,
            },
            total_stakes: match prediction {
                Some(_) => (self.total_stakes + 1) as u64,
                None => self.total_stakes,
            },
            resolved_markets: match resolved {
                Some(key) => with_resolved_market(self.resolved_markets, key),
                None => self.resolved_markets,
            },
            last_updated_ts: current_time,
            ..self
        }
    }
}

/// The identity of `market` where there is one and it is resolved.
pub open spec fn resolved_key(market: Option<&Market>) -> Option<Identity> {
    match market {
        Some(seen) => if seen@.resolved {
            Some(seen@.key)
        } else {
            None
        },
        None => None,
    }
}

/// Statistics with nothing counted, last updated at `current_time`.
pub fn initialize_protocol_stats(current_time: i64, bump: u8) -> (stats: ProtocolStats)
    ensures
        stats@ == (ProtocolStatsView {
            total_volume: 0,
            total_markets: 0,
            total_users: 0,
            total_stakes: 0,
            resolved_markets: Seq::empty(),
            last_updated_ts: current_time,
            bump,
        }),
{
    ProtocolStats {
        total_volume: 0,
        total_markets: 0,
        total_users: 0,
        total_stakes: 0,
        resolved_markets: Vec::new(),
        last_updated_ts: current_time,
        bump,
    }
}

/// Whether `list` holds `key`.
fn holds_identity(list: &Vec<Identity>, key: Identity) -> (found: bool)
    ensures
        found == list@.contains(key),
{
    let mut i: usize = 0;
    while i < list.len()
        invariant
            i <= list.len(),
            forall|j: int| 0 <= j < i ==> list@[j] != key,
        decreases list.len() - i,
    {
        if list[i] == key {
            return true;
        }
        i = i + 1;
    }
    false
}

/// Counts what happened since the last update.
///
/// `markets` stands for a market that was created, `prediction` for a
/// stake that was placed, and `market` for a market that may have been
/// resolved: it joins the recent markets if it is resolved and not among
/// them yet, and pushes the oldest out where twenty are held. The update
/// is rejected, and changes nothing, where a total would leave its range.
pub fn update_protocol_stats(
    stats: &mut ProtocolStats,
    market: Option<&Market>,
    prediction: Option<Prediction>,
    markets: Option<&Market>,
    current_time: i64,
) -> (result: Result<(), ErrorCode>)
    ensures
        match result {
            Ok(()) => {
                &&& old(stats)@.can_count(markets is Some, prediction)
                &&& final(stats)@ == old(stats)@.updated(
                    resolved_key(market),
                    prediction,
                    markets is Some,
                    current_time,
                )
            },
            Err(error) => {
                &&& error == ErrorCode::ArithmeticOverflow
                &&& !old(stats)@.can_count(markets is Some, prediction)
                &&& *final(stats) == *old(stats)
            },
        },
{
    let total_markets: u32 = match markets {
        Some(_) => match stats.total_markets.checked_add(1) {
            Some(count) => count,
            None => {
                return Err(ErrorCode::ArithmeticOverflow);
            },
        },
        None => stats.total_markets,
    };
    let mut total_volume: u64 = stats.total_volume;
    let mut total_stakes: u64 = stats.total_stakes;
    match prediction {
        Some(staked) => {
            total_volume = match stats.total_volume.checked_add(staked.amount) {
                Some(volume) => volume,
                None => {
                    return Err(ErrorCode::ArithmeticOverflow);
                },
            };
            total_stakes = match stats.total_stakes.checked_add(1) {
                Some(count) => count,
                None => {
                    return Err(ErrorCode::ArithmeticOverflow);
                },
            };
        },
        None => {},
    }
    stats.total_markets = total_markets;
    stats.total_volume = total_volume;
    stats.total_stakes = total_stakes;
    match market {
        Some(seen) => {
            if seen.resolved && !holds_identity(&stats.resolved_markets, seen.key) {
                if stats.resolved_markets.len() >= MAX_RECENT_MARKETS {
                    stats.resolved_markets.remove(0);
                }
                stats.resolved_markets.push(seen.key);
            }
        },
        None => {},
    }
    stats.last_updated_ts = current_time;
    Ok(())
}

} // verus!
