//! Model scores and the thresholds they are held to.

use vstd::prelude::*;

verus! {

/// Bit pattern of positive infinity in IEEE 754 single precision.
pub const POSITIVE_INFINITY_BITS: u32 = 0x7F80_0000;

/// Bit pattern of 0.85, the least confidence an oracle resolution is accepted with.
pub const MIN_RESOLUTION_CONFIDENCE_BITS: u32 = 0x3F59_999A;

/// Bit pattern of 0.7, the least score a market is created with.
pub const MIN_CREATION_SCORE_BITS: u32 = 0x3F33_3333;

/// A score reported by the model, held as the bit pattern of an IEEE 754
/// single-precision number.
///
/// The patterns of the non-negative numbers, infinity included, are ordered
/// as the numbers are, and every pattern above that of infinity, or with
/// the sign bit set, is a NaN or a number that is not positive. So a score is
/// at least a positive threshold exactly when its pattern lies between the
/// threshold's and infinity's.
#[derive(Clone, Copy, PartialEq, Eq, Structural, Debug)]
pub struct Score {
    pub bits: u32,
}

impl Score {
    /// Whether the score is at least the positive number whose pattern is `floor_bits`.
    pub open spec fn at_least(self, floor_bits: u32) -> bool {
        floor_bits <= self.bits <= POSITIVE_INFINITY_BITS
    }

    /// Whether the score is at least 0.85.
    pub open spec fn spec_meets_resolution_confidence(self) -> bool {
        self.at_least(MIN_RESOLUTION_CONFIDENCE_BITS)
    }

    /// Whether the score is at least 0.7.
    pub open spec fn spec_meets_creation_score(self) -> bool {
        self.at_least(MIN_CREATION_SCORE_BITS)
    }

    /// The score with the given bit pattern.
    pub fn from_bits(bits: u32) -> (score: Score)
        ensures
            score.bits == bits,
    {
        Score { bits }
    }

    /// Whether the score is at least 0.85.
    pub fn meets_resolution_confidence(&self) -> (ok: bool)
        ensures
            ok == self.spec_meets_resolution_confidence(),
    {
        MIN_RESOLUTION_CONFIDENCE_BITS <= self.bits && self.bits <= POSITIVE_INFINITY_BITS
    }

    /// Whether the score is at least 0.7.
    pub fn meets_creation_score(&self) -> (ok: bool)
        ensures
            ok == self.spec_meets_creation_score(),
    {
        MIN_CREATION_SCORE_BITS <= self.bits && self.bits <= POSITIVE_INFINITY_BITS
    }
}

} // verus!
