//! Errors of the settlement core and their classification.

use vstd::prelude::*;

verus! {

/// Why an operation was rejected.
///
/// A rejected operation leaves every record it was given unchanged.
#[derive(Clone, Copy, PartialEq, Eq, Structural, Debug)]
pub enum ErrorCode {
    TooManyOutcomes,
    LowAIScore,
    InvalidMarketType,
    InvalidDeadline,
    CreatorOnCooldown,
    ExcessiveCreatorFee,
    MarketAlreadyResolved,
    MarketClosed,
    InvalidOutcomeIndex,
    NotOpenEndedMarket,
    VotingNotStarted,
    VotingPeriodEnded,
    Unauthorized,
    WinningOutcomeRequired,
    MarketNotResolved,
    RewardAlreadyClaimed,
    NoWinningOutcome,
    NotWinningPrediction,
    InvalidDistribution,
    MarketExpired,
    LowAIConfidence,
    ResolverInactive,
    MarketNotExpired,
    NotTimeBoundMarket,
    InvalidWeight,
    InsufficientStake,
    VotingNotEnded,
    NoProposedResolution,
    ChallengePeriodActive,
    ChallengePeriodEnded,
    ResolutionFinalized,
    /// A counter, total, deadline or payout left the range of its type.
    ArithmeticOverflow,
    /// The settlement vault still holds value.
    VaultNotEmpty,
    /// The record that the operation would create is already there.
    RecordAlreadyExists,
}

/// The five families of errors.
#[derive(Clone, Copy, PartialEq, Eq, Structural, Debug)]
pub enum ErrorKind {
    /// An argument is malformed.
    Validation,
    /// The operation is not legal in the record's current state or at this time.
    State,
    /// The caller does not hold the role that the operation asks for.
    Authorization,
    /// A computation left the range of its type.
    Arithmetic,
    /// What the operation would draw on is missing or already used up.
    Resource,
}

impl ErrorCode {
    /// The family of this error.
    pub open spec fn spec_kind(self) -> ErrorKind {
        match self {
            ErrorCode::TooManyOutcomes => ErrorKind::Validation,
            ErrorCode::LowAIScore => ErrorKind::Validation,
            ErrorCode::InvalidMarketType => ErrorKind::Validation,
            ErrorCode::InvalidDeadline => ErrorKind::Validation,
            ErrorCode::CreatorOnCooldown => ErrorKind::State,
            ErrorCode::ExcessiveCreatorFee => ErrorKind::Validation,
            ErrorCode::MarketAlreadyResolved => ErrorKind::State,
            ErrorCode::MarketClosed => ErrorKind::State,
            ErrorCode::InvalidOutcomeIndex => ErrorKind::Validation,
            ErrorCode::NotOpenEndedMarket => ErrorKind::State,
            ErrorCode::VotingNotStarted => ErrorKind::State,
            ErrorCode::VotingPeriodEnded => ErrorKind::State,
            ErrorCode::Unauthorized => ErrorKind::Authorization,
            ErrorCode::WinningOutcomeRequired => ErrorKind::Validation,
            ErrorCode::MarketNotResolved => ErrorKind::State,
            ErrorCode::RewardAlreadyClaimed => ErrorKind::Resource,
            ErrorCode::NoWinningOutcome => ErrorKind::State,
            ErrorCode::NotWinningPrediction => ErrorKind::Resource,
            ErrorCode::InvalidDistribution => ErrorKind::Resource,
            ErrorCode::MarketExpired => ErrorKind::State,
            ErrorCode::LowAIConfidence => ErrorKind::Validation,
            ErrorCode::ResolverInactive => ErrorKind::State,
            ErrorCode::MarketNotExpired => ErrorKind::State,
            ErrorCode::NotTimeBoundMarket => ErrorKind::State,
            ErrorCode::InvalidWeight => ErrorKind::Validation,
            ErrorCode::InsufficientStake => ErrorKind::Resource,
            ErrorCode::VotingNotEnded => ErrorKind::State,
            ErrorCode::NoProposedResolution => ErrorKind::State,
            ErrorCode::ChallengePeriodActive => ErrorKind::State,
            ErrorCode::ChallengePeriodEnded => ErrorKind::State,
            ErrorCode::ResolutionFinalized => ErrorKind::State,
            ErrorCode::ArithmeticOverflow => ErrorKind::Arithmetic,
            ErrorCode::VaultNotEmpty => ErrorKind::State,
            ErrorCode::RecordAlreadyExists => ErrorKind::State,
        }
    }

    /// The family of this error.
    pub fn kind(&self) -> (kind: ErrorKind)
        ensures
            kind == self.spec_kind(),
    {
        match self {
            ErrorCode::TooManyOutcomes
            | ErrorCode::LowAIScore
            | ErrorCode::InvalidMarketType
            | ErrorCode::InvalidDeadline
            | ErrorCode::ExcessiveCreatorFee
            | ErrorCode::InvalidOutcomeIndex
            | ErrorCode::WinningOutcomeRequired
            | ErrorCode::LowAIConfidence
            | ErrorCode::InvalidWeight => ErrorKind::Validation,
            ErrorCode::Unauthorized => ErrorKind::Authorization,
            ErrorCode::ArithmeticOverflow => ErrorKind::Arithmetic,
            ErrorCode::RewardAlreadyClaimed
            | ErrorCode::NotWinningPrediction
            | ErrorCode::InvalidDistribution
            | ErrorCode::InsufficientStake => ErrorKind::Resource,
            _ => ErrorKind::State,
        }
    }

    /// The text shown to a caller for this error.
    pub open spec fn spec_message(self) -> Seq<char> {
        match self {
            ErrorCode::TooManyOutcomes => "Too many outcomes. Maximum is 5."@,
            ErrorCode::LowAIScore => "AI score too low. Minimum is 0.7."@,
            ErrorCode::InvalidMarketType => "Invalid market type."@,
            ErrorCode::InvalidDeadline => "Deadline must be in the future."@,
            ErrorCode::CreatorOnCooldown => "Creator is on cooldown period."@,
            ErrorCode::ExcessiveCreatorFee => "Creator fee is too high. Maximum is 5%."@,
            ErrorCode::MarketAlreadyResolved => "Market is already resolved."@,
            ErrorCode::MarketClosed => "Market is closed for predictions."@,
            ErrorCode::InvalidOutcomeIndex => "Invalid outcome index."@,
            ErrorCode::NotOpenEndedMarket => "Not an open-ended market."@,
            ErrorCode::VotingNotStarted => "Voting period not started yet."@,
            ErrorCode::VotingPeriodEnded => "Voting period has ended."@,
            ErrorCode::Unauthorized => "Unauthorized action."@,
            ErrorCode::WinningOutcomeRequired => "Winning outcome index required for time-bound markets."@,
            ErrorCode::MarketNotResolved => "Market not resolved yet."@,
            ErrorCode::RewardAlreadyClaimed => "Reward already claimed."@,
            ErrorCode::NoWinningOutcome => "No winning outcome set."@,
            ErrorCode::NotWinningPrediction => "Not a winning prediction."@,
            ErrorCode::InvalidDistribution => "Invalid distribution."@,
            ErrorCode::MarketExpired => "Market has expired. The deadline has passed."@,
            ErrorCode::LowAIConfidence => "AI confidence score too low for resolution."@,
            ErrorCode::ResolverInactive => "AI resolver is inactive."@,
            ErrorCode::MarketNotExpired => "Market has not yet reached its deadline."@,
            ErrorCode::NotTimeBoundMarket => "AI resolver can only resolve time-bound markets."@,
            ErrorCode::InvalidWeight => "Invalid weight for vote authority. Must be between 1 and 5."@,
            ErrorCode::InsufficientStake => "Insufficient stake for voting."@,
            ErrorCode::VotingNotEnded => "Voting has not ended yet."@,
            ErrorCode::NoProposedResolution => "No proposed resolution exists."@,
            ErrorCode::ChallengePeriodActive => "Challenge period is still active."@,
            ErrorCode::ChallengePeriodEnded => "Challenge period has ended."@,
            ErrorCode::ResolutionFinalized => "Resolution has already been finalized."@,
            ErrorCode::ArithmeticOverflow => "Arithmetic overflow."@,
            ErrorCode::VaultNotEmpty => "Settlement vault is not empty."@,
            ErrorCode::RecordAlreadyExists => "Record already exists."@,
        }
    }

    /// The text shown to a caller for this error.
    pub fn message(&self) -> (text: String)
        ensures
            text@ == self.spec_message(),
    {
        let text: &str = match self {
            ErrorCode::TooManyOutcomes => "Too many outcomes. Maximum is 5.",
            ErrorCode::LowAIScore => "AI score too low. Minimum is 0.7.",
            ErrorCode::InvalidMarketType => "Invalid market type.",
            ErrorCode::InvalidDeadline => "Deadline must be in the future.",
            ErrorCode::CreatorOnCooldown => "Creator is on cooldown period.",
            ErrorCode::ExcessiveCreatorFee => "Creator fee is too high. Maximum is 5%.",
            ErrorCode::MarketAlreadyResolved => "Market is already resolved.",
            ErrorCode::MarketClosed => "Market is closed for predictions.",
            ErrorCode::InvalidOutcomeIndex => "Invalid outcome index.",
            ErrorCode::NotOpenEndedMarket => "Not an open-ended market.",
            ErrorCode::VotingNotStarted => "Voting period not started yet.",
            ErrorCode::VotingPeriodEnded => "Voting period has ended.",
            ErrorCode::Unauthorized => "Unauthorized action.",
            ErrorCode::WinningOutcomeRequired => "Winning outcome index required for time-bound markets.",
            ErrorCode::MarketNotResolved => "Market not resolved yet.",
            ErrorCode::RewardAlreadyClaimed => "Reward already claimed.",
            ErrorCode::NoWinningOutcome => "No winning outcome set.",
            ErrorCode::NotWinningPrediction => "Not a winning prediction.",
            ErrorCode::InvalidDistribution => "Invalid distribution.",
            ErrorCode::MarketExpired => "Market has expired. The deadline has passed.",
            ErrorCode::LowAIConfidence => "AI confidence score too low for resolution.",
            ErrorCode::ResolverInactive => "AI resolver is inactive.",
            ErrorCode::MarketNotExpired => "Market has not yet reached its deadline.",
            ErrorCode::NotTimeBoundMarket => "AI resolver can only resolve time-bound markets.",
            ErrorCode::InvalidWeight => "Invalid weight for vote authority. Must be between 1 and 5.",
            ErrorCode::InsufficientStake => "Insufficient stake for voting.",
            ErrorCode::VotingNotEnded => "Voting has not ended yet.",
            ErrorCode::NoProposedResolution => "No proposed resolution exists.",
            ErrorCode::ChallengePeriodActive => "Challenge period is still active.",
            ErrorCode::ChallengePeriodEnded => "Challenge period has ended.",
            ErrorCode::ResolutionFinalized => "Resolution has already been finalized.",
            ErrorCode::ArithmeticOverflow => "Arithmetic overflow.",
            ErrorCode::VaultNotEmpty => "Settlement vault is not empty.",
            ErrorCode::RecordAlreadyExists => "Record already exists.",
        };
        text.to_owned()
    }
}

} // verus!
