//! The decoded form of a block fragment.

use vstd::prelude::*;

verus! {

/// A decoded block fragment.
#[derive(Clone, Debug, PartialEq, Eq)]
pub struct Shred {
    /// The block this fragment belongs to.
    pub slot: u64,
    /// Position within the slot's fragment stream.
    pub index: u32,
    /// The leader's signature over the fragment.
    pub signature: [u8; 64],
    /// Value by which retransmit shuffles its peers.
    pub seed: [u8; 32],
    /// The fragment's data.
    pub payload: Vec<u8>,
}

impl Shred {
    /// A shred of the given parts.
    pub fn new(slot: u64, index: u32, signature: [u8; 64], seed: [u8; 32], payload: Vec<u8>) -> (shred:
        Shred)
        ensures
            shred == (Shred { slot, index, signature, seed, payload }),
    {
        Shred { slot, index, signature, seed, payload }
    }

    /// The block this fragment belongs to.
    pub fn slot(&self) -> (slot: u64)
        ensures
            slot == self.slot,
    {
        self.slot
    }

    /// Position within the slot's fragment stream.
    pub fn index(&self) -> (index: u32)
        ensures
            index == self.index,
    {
        self.index
    }

    /// Value by which retransmit shuffles its peers.
    pub fn seed(&self) -> (seed: [u8; 32])
        ensures
            seed == self.seed,
    {
        self.seed
    }

    /// Moves the shred to another slot.
    pub fn set_slot(&mut self, slot: u64)
        ensures
            *final(self) == (Shred { slot, ..*old(self) }),
    {
        self.slot = slot;
    }
}

} // verus!
