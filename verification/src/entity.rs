//! Entity identifiers.

use vstd::prelude::*;

verus! {

/// The identifier of an entity in the engine's store. The game logic never
/// looks inside: it only compares identifiers and hands them back.
#[derive(Clone, Copy, Debug, PartialEq, Eq, Hash, Structural)]
pub struct Entity {
    pub bits: u64,
}

impl Entity {
    /// The entity with the given identifier bits.
    pub fn from_bits(bits: u64) -> (entity: Entity)
        ensures
            entity == (Entity { bits }),
    {
        Entity { bits }
    }

    /// The identifier bits of this entity.
    pub fn to_bits(self) -> (bits: u64)
        ensures
            bits == self.bits,
    {
        self.bits
    }
}

} // verus!
