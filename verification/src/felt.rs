//! A 252-bit field element, the basic hash/value type of the chain.
//!
//! The sync core only ever compares felts for equality and carries them
//! around, so the representation is four plain 64-bit limbs.

use vstd::prelude::*;

verus! {

/// A field element, stored as four big-endian 64-bit limbs.
///
/// Block hashes, state roots and storage keys are all felts; the sealing
/// collaborator's 256-bit block hashes are carried in the same shape.
#[derive(Clone, Copy, Debug, PartialEq, Eq, Structural)]
pub struct Felt {
    pub limb0: u64,
    pub limb1: u64,
    pub limb2: u64,
    pub limb3: u64,
}

impl Felt {
    /// The zero felt, the initial value of every hash record in the store.
    pub fn zero() -> (r: Felt)
        ensures
            r == Felt::spec_zero(),
    {
        Felt { limb0: 0, limb1: 0, limb2: 0, limb3: 0 }
    }

    pub open spec fn spec_zero() -> Felt {
        Felt { limb0: 0, limb1: 0, limb2: 0, limb3: 0 }
    }

    /// Build a felt out of a single low limb; convenient for callers and tests.
    pub fn from_low(low: u64) -> (r: Felt)
        ensures
            r == (Felt { limb0: 0, limb1: 0, limb2: 0, limb3: low }),
    {
        Felt { limb0: 0, limb1: 0, limb2: 0, limb3: low }
    }
}

} // verus!
