//! The life of a market: open, awaiting resolution, resolved, closed.

use vstd::prelude::*;
use crate::error::ErrorCode;
use crate::governance::{finalization_rejection, VoteResultView};
use crate::identity::Identity;
use crate::market::{stake_rejection, Market, MarketType, MarketView};
use crate::oracle::{oracle_rejection, AIResolver};
use crate::score::Score;

verus! {

/// Where a market stands in its life.
#[derive(Clone, Copy, PartialEq, Eq, Structural, Debug)]
pub enum MarketPhase {
    /// The deadline lies ahead: stakes are taken.
    Open,
    /// The deadline has passed and no outcome is fixed yet.
    AwaitingResolution,
    /// The outcome is fixed: rewards can be claimed.
    Resolved,
    /// Everything was paid out and the market's record was given up.
    Closed,
}

impl MarketView {
    /// Where the market stands at `current_time`, as long as its record is
    /// kept.
    pub open spec fn phase(self, current_time: i64) -> MarketPhase {
        if self.resolved {
            MarketPhase::Resolved
        } else if current_time < self.deadline {
            MarketPhase::Open
        } else {
            MarketPhase::AwaitingResolution
        }
    }
}

impl Market {
    /// Where the market stands at `current_time`, as long as its record is
    /// kept.
    pub fn phase(&self, current_time: i64) -> (phase: MarketPhase)
        ensures
            phase == self@.phase(current_time),
    {
        if self.resolved {
            MarketPhase::Resolved
        } else if current_time < self.deadline {
            MarketPhase::Open
        } else {
            MarketPhase::AwaitingResolution
        }
    }
}

/// Why a resolution by the administrator is rejected, or `None` where it
/// is accepted. The conditions are tested in the order written. Only a
/// time-bound market has the outcome checked.
pub open spec fn admin_resolution_rejection(
    market: MarketView,
    signer: Identity,
    admin: Identity,
    winning_outcome_index: Option<u8>,
) -> Option<ErrorCode> {
    if signer != admin {
        Some(ErrorCode::Unauthorized)
    } else if market.resolved {
        Some(ErrorCode::MarketAlreadyResolved)
    } else if market.market_type == MarketType::TimeBound && winning_outcome_index is None {
        Some(ErrorCode::WinningOutcomeRequired)
    } else if market.market_type == MarketType::TimeBound && !market.has_outcome(
        winning_outcome_index->Some_0,
    ) {
        Some(ErrorCode::InvalidOutcomeIndex)
    } else {
        None
    }
}

/// Resolves a market of either kind on the word of the administrator.
///
/// `signer` is who asks, `admin` is who the host recognizes as
/// administrator. A time-bound market needs one of its outcomes as the
/// winner; an open-ended market is resolved to whatever is handed in. A
/// resolution that is rejected changes nothing.
pub fn resolve_market(
    market: &mut Market,
    signer: Identity,
    admin: Identity,
    winning_outcome_index: Option<u8>,
) -> (result: Result<(), ErrorCode>)
    ensures
        match result {
            Ok(()) => {
                &&& admin_resolution_rejection(
                    old(market)@,
                    signer,
                    admin,
                    winning_outcome_index,
                ) is None
                &&& final(market)@ == old(market)@.resolved_to(winning_outcome_index)
            },
            Err(error) => {
                &&& admin_resolution_rejection(
                    old(market)@,
                    signer,
                    admin,
                    winning_outcome_index,
                ) == Some(error)
                &&& *final(market) == *old(market)
            },
        },
{
    if signer != admin {
        return Err(ErrorCode::Unauthorized);
    }
    if market.resolved {
        return Err(ErrorCode::MarketAlreadyResolved);
    }
    match market.market_type {
        MarketType::TimeBound => {
            let outcome: u8 = match winning_outcome_index {
                Some(outcome) => outcome,
                None => {
                    return Err(ErrorCode::WinningOutcomeRequired);
                },
            };
            if (outcome as usize) >= market.outcomes.len() {
                return Err(ErrorCode::InvalidOutcomeIndex);
            }
        },
        MarketType::OpenEnded => {},
    }
    market.winning_outcome = winning_outcome_index;
    market.resolved = true;
    Ok(())
}

/// Why a market's record cannot be given up, or `None` where it can. The
/// conditions are tested in the order written.
pub open spec fn closing_rejection(
    market: MarketView,
    signer: Identity,
    admin: Identity,
    vault_balance: u64,
) -> Option<ErrorCode> {
    if signer != admin {
        Some(ErrorCode::Unauthorized)
    } else if !market.resolved {
        Some(ErrorCode::MarketNotResolved)
    } else if vault_balance != 0 {
        Some(ErrorCode::VaultNotEmpty)
    } else {
        None
    }
}

/// Tells whether the market's record can be given up: the administrator
/// asks for it, the market is resolved, and its settlement vault, which
/// holds `vault_balance`, is empty.
///
/// `signer` is who asks, `admin` is who the host recognizes as
/// administrator.
pub fn close_market(
    market: &Market,
    signer: Identity,
    admin: Identity,
    vault_balance: u64,
) -> (result: Result<(), ErrorCode>)
    ensures
        result == (match closing_rejection(market@, signer, admin, vault_balance) {
            Some(error) => Err::<(), ErrorCode>(error),
            None => Ok::<(), ErrorCode>(()),
        }),
{
    if signer != admin {
        return Err(ErrorCode::Unauthorized);
    }
    if !market.resolved {
        return Err(ErrorCode::MarketNotResolved);
    }
    if vault_balance != 0 {
        return Err(ErrorCode::VaultNotEmpty);
    }
    Ok(())
}

/// Resolution is single-shot. On a resolved market every further
/// resolution is rejected, whichever way it comes: by the oracle, by the
/// administrator, or by finalizing the governance. Where the caller holds
/// the role that the way asks for, and for a finalization the market is
/// open-ended and the tally its own, the reason given is that the market is
/// already resolved.
pub proof fn lemma_resolution_single_shot(
    market: MarketView,
    ai_resolver: AIResolver,
    resolver_authority: Identity,
    winning_outcome_index: u8,
    ai_confidence_score: Score,
    signer: Identity,
    admin: Identity,
    admin_outcome: Option<u8>,
    vote_result: VoteResultView,
    current_time: i64,
)
    requires
        market.resolved,
    ensures
        oracle_rejection(
            market,
            ai_resolver,
            resolver_authority,
            winning_outcome_index,
            ai_confidence_score,
            current_time,
        ) is Some,
        ai_resolver.authority == resolver_authority && ai_resolver.active ==> oracle_rejection(
            market,
            ai_resolver,
            resolver_authority,
            winning_outcome_index,
            ai_confidence_score,
            current_time,
        ) == Some(ErrorCode::MarketAlreadyResolved),
        admin_resolution_rejection(market, signer, admin, admin_outcome) is Some,
        signer == admin ==> admin_resolution_rejection(market, signer, admin, admin_outcome)
            == Some(ErrorCode::MarketAlreadyResolved),
        finalization_rejection(market, vote_result, current_time) is Some,
        vote_result.market == market.key && market.market_type == MarketType::OpenEnded
            ==> finalization_rejection(market, vote_result, current_time) == Some(
            ErrorCode::MarketAlreadyResolved,
        ),
{
}

/// A resolved market stays as it is: every operation that would change a
/// market is rejected on a resolved one, so neither the resolution nor the
/// winning outcome nor the ledger changes again.
pub proof fn lemma_resolved_market_is_final(
    market: MarketView,
    outcome_index: u8,
    amount: u64,
    ai_resolver: AIResolver,
    resolver_authority: Identity,
    ai_confidence_score: Score,
    signer: Identity,
    admin: Identity,
    admin_outcome: Option<u8>,
    vote_result: VoteResultView,
    current_time: i64,
)
    requires
        market.resolved,
    ensures
        stake_rejection(market, outcome_index, amount, current_time) is Some,
        oracle_rejection(
            market,
            ai_resolver,
            resolver_authority,
            outcome_index,
            ai_confidence_score,
            current_time,
        ) is Some,
        admin_resolution_rejection(market, signer, admin, admin_outcome) is Some,
        finalization_rejection(market, vote_result, current_time) is Some,
{
}

/// A market takes stakes only while it is open, and is resolved by the
/// oracle or by its governance only while it awaits resolution.
pub proof fn lemma_phase_gates_operations(
    market: MarketView,
    outcome_index: u8,
    amount: u64,
    ai_resolver: AIResolver,
    resolver_authority: Identity,
    ai_confidence_score: Score,
    vote_result: VoteResultView,
    current_time: i64,
)
    ensures
        stake_rejection(market, outcome_index, amount, current_time) is None ==> market.phase(
            current_time,
        ) == MarketPhase::Open,
        oracle_rejection(
            market,
            ai_resolver,
            resolver_authority,
            outcome_index,
            ai_confidence_score,
            current_time,
        ) is None ==> market.phase(current_time) == MarketPhase::AwaitingResolution,
        market.phase(current_time) == MarketPhase::Resolved ==> finalization_rejection(
            market,
            vote_result,
            current_time,
        ) is Some,
{
}

} // verus!
