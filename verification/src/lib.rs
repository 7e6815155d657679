//! Settlement core of a stake-based prediction market.
//!
//! Participants lock value on one of several mutually exclusive outcomes
//! before a deadline. Afterwards the winning outcome is fixed, either by a
//! confidence-gated oracle or by a stake-weighted governance protocol, and
//! the pool is paid out to the correct predictors net of fees.
//!
//! Every operation is a function from the records it touches, the caller's
//! identity and the current time to the updated records and the value
//! transfers the host has to carry out. Nothing here reads a clock or moves
//! value by itself. An operation either succeeds or is rejected with an
//! [`error::ErrorCode`], and a rejected operation changes nothing. The
//! contract of each operation names the rejection for every input, in the
//! order in which the conditions are tested, and the new value of every
//! record.
//!
//! # Modules
//!
//! - [`market`]: the market record and its stake ledger.
//! - [`creation`]: creating a market.
//! - [`staking`]: placing a stake.
//! - [`oracle`]: one-step resolution of time-bound markets.
//! - [`governance`]: votes, proposals, challenges and finalization for
//!   open-ended markets.
//! - [`settlement`]: payout arithmetic and reward claims.
//! - [`lifecycle`]: the phases of a market, resolution by the
//!   administrator, and closing.
//! - [`book`]: a market together with all records kept for it, with the
//!   invariants that span them.
//! - [`profile`], [`stats`]: creator and participant profiles, tiers, and
//!   protocol-wide totals.
//! - [`records`], [`events`], [`identity`], [`score`], [`error`]: the plain
//!   data that the operations exchange.
//!
//! # Models
//!
//! Records that hold text or lists have a view ([`market::MarketView`],
//! [`governance::VoteResultView`], [`stats::ProtocolStatsView`],
//! [`book::MarketBookView`]) in which these are sequences; contracts speak
//! of the views. Records of integers, flags and identities alone are their
//! own model. An identity is a 256-bit number in two halves. A score is the
//! bit pattern of a single-precision number, so that thresholds are
//! compared on integers.

pub mod book;
pub mod creation;
pub mod error;
pub mod events;
pub mod governance;
pub mod identity;
pub mod lifecycle;
pub mod market;
pub mod oracle;
pub mod profile;
pub mod records;
pub mod score;
pub mod settlement;
pub mod staking;
pub mod stats;
