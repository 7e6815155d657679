//! The market record and its stake ledger.

use vstd::prelude::*;
use crate::error::ErrorCode;
use crate::identity::Identity;
use crate::score::Score;

verus! {

/// The most outcomes a market can have.
pub const MAX_OUTCOMES: usize = 5;

/// How a market is resolved once its deadline has passed.
#[derive(Clone, Copy, PartialEq, Eq, Structural, Debug)]
pub enum MarketType {
    /// Resolved in one step by the oracle.
    TimeBound,
    /// Resolved by the governance protocol.
    OpenEnded,
}

impl MarketType {
    /// The number a market kind is stored and announced as.
    pub open spec fn spec_code(self) -> u8 {
        match self {
            MarketType::TimeBound => 0,
            MarketType::OpenEnded => 1,
        }
    }

    /// The kind that `code` stands for, if any.
    pub open spec fn spec_from_code(code: u8) -> Option<MarketType> {
        if code == 0 {
            Some(MarketType::TimeBound)
        } else if code == 1 {
            Some(MarketType::OpenEnded)
        } else {
            None
        }
    }

    /// The number a market kind is stored and announced as.
    pub fn code(&self) -> (code: u8)
        ensures
            code == self.spec_code(),
    {
        match self {
            MarketType::TimeBound => 0,
            MarketType::OpenEnded => 1,
        }
    }

    /// The kind that `code` stands for, if any.
    pub fn from_code(code: u8) -> (kind: Option<MarketType>)
        ensures
            kind == Self::spec_from_code(code),
    {
        if code == 0 {
            Some(MarketType::TimeBound)
        } else if code == 1 {
            Some(MarketType::OpenEnded)
        } else {
            None
        }
    }
}

/// A market: its question, its outcomes, and the stakes placed on them.
#[derive(Clone, Debug)]
pub struct Market {
    /// The market's own identity, which predictions and votes refer to.
    pub key: Identity,
    pub creator: Identity,
    pub question: String,
    pub outcomes: Vec<String>,
    pub ai_score: Score,
    pub market_type: MarketType,
    pub deadline: i64,
    pub ai_suggested_deadline: i64,
    pub resolved: bool,
    pub winning_outcome: Option<u8>,
    pub total_pool: u64,
    pub creator_fee_bps: u16,
    pub protocol_fee_bps: u16,
    pub stakes_per_outcome: Vec<u64>,
    pub ai_resolvable: bool,
    pub bump: u8,
}

/// What a market holds, as mathematical values.
pub struct MarketView {
    pub key: Identity,
    pub creator: Identity,
    pub question: Seq<char>,
    pub outcomes: Seq<Seq<char>>,
    pub ai_score: Score,
    pub market_type: MarketType,
    pub deadline: i64,
    pub ai_suggested_deadline: i64,
    pub resolved: bool,
    pub winning_outcome: Option<u8>,
    pub total_pool: u64,
    pub creator_fee_bps: u16,
    pub protocol_fee_bps: u16,
    pub stakes_per_outcome: Seq<u64>,
    pub ai_resolvable: bool,
    pub bump: u8,
}

impl View for Market {
    type V = MarketView;

    open spec fn view(&self) -> MarketView {
        MarketView {
            key: self.key,
            creator: self.creator,
            question: self.question@,
            outcomes: self.outcomes.deep_view(),
            ai_score: self.ai_score,
            market_type: self.market_type,
            deadline: self.deadline,
            ai_suggested_deadline: self.ai_suggested_deadline,
            resolved: self.resolved,
            winning_outcome: self.winning_outcome,
            total_pool: self.total_pool,
            creator_fee_bps: self.creator_fee_bps,
            protocol_fee_bps: self.protocol_fee_bps,
            stakes_per_outcome: self.stakes_per_outcome@,
            ai_resolvable: self.ai_resolvable,
            bump: self.bump,
        }
    }
}

/// The sum of a sequence of amounts.
pub open spec fn sum_amounts(amounts: Seq<u64>) -> nat
    decreases amounts.len(),
{
    if amounts.len() == 0 {
        0
    } else {
        sum_amounts(amounts.drop_last()) + amounts.last() as nat
    }
}

impl MarketView {
    /// A market is well formed when it has at most five outcomes, one stake
    /// total for each of them, and a pool that is the sum of these totals.
    pub open spec fn wf(self) -> bool {
        &&& self.outcomes.len() <= MAX_OUTCOMES
        &&& self.stakes_per_outcome.len() == self.outcomes.len()
        &&& sum_amounts(self.stakes_per_outcome) == self.total_pool
    }

    /// Whether `outcome_index` names one of the market's outcomes.
    pub open spec fn has_outcome(self, outcome_index: u8) -> bool {
        (outcome_index as int) < self.outcomes.len()
    }

    /// The total staked on `outcome_index`.
    pub open spec fn total_stake_for(self, outcome_index: u8) -> u64
        recommends
            (outcome_index as int) < self.stakes_per_outcome.len(),
    {
        self.stakes_per_outcome[outcome_index as int]
    }

    /// The market after it was resolved to `winning_outcome`.
    pub open spec fn resolved_to(self, winning_outcome: Option<u8>) -> MarketView {
        MarketView { resolved: true, winning_outcome, ..self }
    }

    /// The market after `amount` was staked on `outcome_index`.
    pub open spec fn with_stake(self, outcome_index: u8, amount: u64) -> MarketView
        recommends
            (outcome_index as int) < self.stakes_per_outcome.len(),
    {
        MarketView {
            total_pool: (self.total_pool + amount) as u64,
            stakes_per_outcome: self.stakes_per_outcome.update(
                outcome_index as int,
                (self.stakes_per_outcome[outcome_index as int] + amount) as u64,
            ),
            ..self
        }
    }
}

/// Why a stake of `amount` on `outcome_index` at `current_time` is
/// rejected, or `None` where it is taken. The conditions are tested in the
/// order written.
pub open spec fn stake_rejection(
    market: MarketView,
    outcome_index: u8,
    amount: u64,
    current_time: i64,
) -> Option<ErrorCode> {
    if !market.has_outcome(outcome_index) {
        Some(ErrorCode::InvalidOutcomeIndex)
    } else if market.resolved {
        Some(ErrorCode::MarketAlreadyResolved)
    } else if current_time >= market.deadline {
        Some(ErrorCode::MarketExpired)
    } else if market.total_pool + amount > u64::MAX {
        Some(ErrorCode::ArithmeticOverflow)
    } else {
        None
    }
}

/// No amount in a sequence exceeds the sum of all of them.
pub proof fn lemma_amount_within_sum(amounts: Seq<u64>, index: int)
    requires
        0 <= index < amounts.len(),
    ensures
        amounts[index] <= sum_amounts(amounts),
    decreases amounts.len(),
{
    if index < amounts.len() - 1 {
        lemma_amount_within_sum(amounts.drop_last(), index);
    }
}

/// Raising one amount of a sequence raises the sum by as much.
pub proof fn lemma_sum_after_update(amounts: Seq<u64>, index: int, amount: u64)
    requires
        0 <= index < amounts.len(),
        amounts[index] + amount <= u64::MAX,
    ensures
        sum_amounts(amounts.update(index, (amounts[index] + amount) as u64)) == sum_amounts(
            amounts,
        ) + amount,
    decreases amounts.len(),
{
    let raised = amounts.update(index, (amounts[index] + amount) as u64);
    if index < amounts.len() - 1 {
        assert(raised.drop_last() =~= amounts.drop_last().update(
            index,
            (amounts[index] + amount) as u64,
        ));
        lemma_sum_after_update(amounts.drop_last(), index, amount);
    } else {
        assert(raised.drop_last() =~= amounts.drop_last());
    }
}

/// A sequence of zeros sums to zero.
pub proof fn lemma_sum_of_zeros(amounts: Seq<u64>)
    requires
        forall|i: int| 0 <= i < amounts.len() ==> amounts[i] == 0,
    ensures
        sum_amounts(amounts) == 0,
    decreases amounts.len(),
{
    if amounts.len() > 0 {
        lemma_sum_of_zeros(amounts.drop_last());
    }
}

/// `count` amounts of zero.
pub(crate) fn zero_amounts(count: usize) -> (amounts: Vec<u64>)
    ensures
        amounts@ == Seq::new(count as nat, |i: int| 0u64),
        sum_amounts(amounts@) == 0,
{
    let mut amounts: Vec<u64> = Vec::new();
    let mut i: usize = 0;
    while i < count
        invariant
            i <= count,
            amounts@ == Seq::new(i as nat, |j: int| 0u64),
        decreases count - i,
    {
        amounts.push(0);
        i = i + 1;
    }
    proof {
        lemma_sum_of_zeros(amounts@);
    }
    amounts
}

impl Market {
    /// Whether the market is well formed.
    pub fn is_well_formed(&self) -> (ok: bool)
        ensures
            ok == self@.wf(),
    {
        if self.outcomes.len() > MAX_OUTCOMES || self.stakes_per_outcome.len()
            != self.outcomes.len() {
            return false;
        }
        let mut sum: u64 = 0;
        let mut i: usize = 0;
        while i < self.stakes_per_outcome.len()
            invariant
                i <= self.stakes_per_outcome.len(),
                sum == sum_amounts(self.stakes_per_outcome@.take(i as int)),
                sum <= self.total_pool,
            decreases self.stakes_per_outcome.len() - i,
        {
            proof {
                let taken = self.stakes_per_outcome@.take(i as int + 1);
                assert(taken.drop_last() =~= self.stakes_per_outcome@.take(i as int));
                if sum + self.stakes_per_outcome[i as int] > self.total_pool {
                    lemma_sum_of_prefix_within_sum(self.stakes_per_outcome@, i as int + 1);
                }
            }
            if self.stakes_per_outcome[i] > self.total_pool - sum {
                return false;
            }
            sum = sum + self.stakes_per_outcome[i];
            i = i + 1;
        }
        assert(self.stakes_per_outcome@.take(i as int) =~= self.stakes_per_outcome@);
        sum == self.total_pool
    }

    /// The total staked on `outcome_index`, if the market has such an outcome.
    pub fn total_stake_for(&self, outcome_index: u8) -> (total: Option<u64>)
        ensures
            total == (if (outcome_index as int) < self@.stakes_per_outcome.len() {
                Some(self@.total_stake_for(outcome_index))
            } else {
                None
            }),
    {
        if (outcome_index as usize) < self.stakes_per_outcome.len() {
            Some(self.stakes_per_outcome[outcome_index as usize])
        } else {
            None
        }
    }

    /// Tests whether the market takes a stake of `amount` on
    /// `outcome_index` at `current_time`, and changes nothing.
    pub fn check_stake(
        &self,
        outcome_index: u8,
        amount: u64,
        current_time: i64,
    ) -> (result: Result<(), ErrorCode>)
        ensures
            result == (match stake_rejection(self@, outcome_index, amount, current_time) {
                Some(error) => Err::<(), ErrorCode>(error),
                None => Ok::<(), ErrorCode>(()),
            }),
    {
        if (outcome_index as usize) >= self.outcomes.len() {
            return Err(ErrorCode::InvalidOutcomeIndex);
        }
        if self.resolved {
            return Err(ErrorCode::MarketAlreadyResolved);
        }
        if self.deadline <= current_time {
            return Err(ErrorCode::MarketExpired);
        }
        if amount > u64::MAX - self.total_pool {
            return Err(ErrorCode::ArithmeticOverflow);
        }
        Ok(())
    }

    /// Adds a stake of `amount` on `outcome_index` to the ledger and hands
    /// back the new total of that outcome and the new pool.
    ///
    /// The stake is taken while the market is open: the outcome exists, the
    /// market is unresolved, the deadline lies ahead, and the pool stays in
    /// range. A stake that is rejected changes nothing.
    ///
    /// The market has to be well formed, which
    /// [`Market::is_well_formed`] tests.
    pub fn record_stake(
        &mut self,
        outcome_index: u8,
        amount: u64,
        current_time: i64,
    ) -> (result: Result<(u64, u64), ErrorCode>)
        requires
            old(self)@.wf(),
        ensures
            match result {
                Ok(totals) => {
                    &&& stake_rejection(old(self)@, outcome_index, amount, current_time) is None
                    &&& final(self)@ == old(self)@.with_stake(outcome_index, amount)
                    &&& totals.0 == old(self)@.total_stake_for(outcome_index) + amount
                    &&& totals.1 == old(self)@.total_pool + amount
                    &&& final(self)@.wf()
                },
                Err(error) => {
                    &&& stake_rejection(old(self)@, outcome_index, amount, current_time) == Some(
                        error,
                    )
                    &&& *final(self) == *old(self)
                },
            },
    {
        match self.check_stake(outcome_index, amount, current_time) {
            Ok(()) => {},
            Err(error) => {
                return Err(error);
            },
        }
        let index: usize = outcome_index as usize;
        proof {
            lemma_amount_within_sum(self.stakes_per_outcome@, index as int);
            lemma_sum_after_update(self.stakes_per_outcome@, index as int, amount);
        }
        let outcome_total: u64 = self.stakes_per_outcome[index] + amount;
        let pool: u64 = self.total_pool + amount;
        self.stakes_per_outcome.set(index, outcome_total);
        self.total_pool = pool;
        Ok((outcome_total, pool))
    }
}

/// The first amounts of a sequence sum to no more than all of them.
pub proof fn lemma_sum_of_prefix_within_sum(amounts: Seq<u64>, count: int)
    requires
        0 <= count <= amounts.len(),
    ensures
        sum_amounts(amounts.take(count)) <= sum_amounts(amounts),
    decreases amounts.len(),
{
    if count < amounts.len() {
        assert(amounts.drop_last().take(count) =~= amounts.take(count));
        lemma_sum_of_prefix_within_sum(amounts.drop_last(), count);
    } else {
        assert(amounts.take(count) =~= amounts);
    }
}

impl Default for Market {
    /// An unresolved time-bound market without question, outcomes, stakes
    /// or fees.
    fn default() -> (market: Market)
        ensures
            market@ == (MarketView {
                key: Identity { hi: 0, lo: 0 },
                creator: Identity { hi: 0, lo: 0 },
                question: Seq::empty(),
                outcomes: Seq::empty(),
                ai_score: Score { bits: 0 },
                market_type: MarketType::TimeBound,
                deadline: 0,
                ai_suggested_deadline: 0,
                resolved: false,
                winning_outcome: None,
                total_pool: 0,
                creator_fee_bps: 0,
                protocol_fee_bps: 0,
                stakes_per_outcome: Seq::empty(),
                ai_resolvable: false,
                bump: 0,
            }),
            market@.wf(),
    {
        let market = Market {
            key: Identity { hi: 0, lo: 0 },
            creator: Identity { hi: 0, lo: 0 },
            question: String::new(),
            outcomes: Vec::new(),
            ai_score: Score { bits: 0 },
            market_type: MarketType::TimeBound,
            deadline: 0,
            ai_suggested_deadline: 0,
            resolved: false,
            winning_outcome: None,
            total_pool: 0,
            creator_fee_bps: 0,
            protocol_fee_bps: 0,
            stakes_per_outcome: Vec::new(),
            ai_resolvable: false,
            bump: 0,
        };
        assert(market.outcomes.deep_view() =~= Seq::<Seq<char>>::empty());
        market
    }
}

} // verus!
