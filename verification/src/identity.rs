//! Identities of participants, authorities and records.

use vstd::prelude::*;

verus! {

/// A 256-bit identity, held as two 128-bit halves.
///
/// Two identities are the same exactly when both halves agree.
#[derive(Clone, Copy, PartialEq, Eq, Structural, Debug, Hash)]
pub struct Identity {
    pub hi: u128,
    pub lo: u128,
}

impl Identity {
    /// The identity with the given halves.
    pub fn new(hi: u128, lo: u128) -> (id: Identity)
        ensures
            id == (Identity { hi, lo }),
    {
        Identity { hi, lo }
    }

    /// Whether `self` and `other` name the same party.
    pub fn same_as(&self, other: &Identity) -> (same: bool)
        ensures
            same == (*self == *other),
    {
        self.hi == other.hi && self.lo == other.lo
    }
}

impl Default for Identity {
    /// The identity whose halves are both zero.
    fn default() -> (id: Identity)
        ensures
            id == (Identity { hi: 0, lo: 0 }),
    {
        Identity { hi: 0, lo: 0 }
    }
}

} // verus!
