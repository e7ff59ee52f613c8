//! Packets as received, and batches of them.

use vstd::prelude::*;

verus! {

/// Side-band data of a packet. The ingest pass fills it in from the decoded
/// shred, so that retransmit can route the packet without decoding it again.
#[derive(Clone, Debug, PartialEq, Eq)]
pub struct Meta {
    /// Slot of the shred that the packet carries.
    pub slot: u64,
    /// Seed of the shred that the packet carries.
    pub seed: [u8; 32],
}

/// One datagram as received.
#[derive(Clone, Debug, PartialEq, Eq)]
pub struct Packet {
    /// The bytes on the wire.
    pub data: Vec<u8>,
    /// What is known of the packet besides its bytes.
    pub meta: Meta,
}

/// Packets received together, in receive order.
#[derive(Clone, Debug, PartialEq, Eq)]
pub struct Packets {
    pub packets: Vec<Packet>,
}

impl Packet {
    /// A packet of the given bytes whose side-band is still blank: slot 0 and
    /// an all-zero seed.
    pub fn new(data: Vec<u8>) -> (packet: Packet)
        ensures
            packet.data == data,
            packet.meta.slot == 0,
            packet.meta.seed@ == Seq::new(32, |i: int| 0u8),
    {
        Packet { data, meta: Meta { slot: 0, seed: [0u8; 32] } }
    }
}

impl Packets {
    /// A batch of the given packets.
    pub fn new(packets: Vec<Packet>) -> (batch: Packets)
        ensures
            batch.packets == packets,
    {
        Packets { packets }
    }

    /// The number of packets in the batch.
    pub fn len(&self) -> (len: usize)
        ensures
            len == self.packets@.len(),
    {
        self.packets.len()
    }

    /// Whether the batch holds no packet.
    pub fn is_empty(&self) -> (empty: bool)
        ensures
            empty == (self.packets@.len() == 0),
    {
        self.packets.len() == 0
    }
}

} // verus!
