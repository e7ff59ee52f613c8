//! The ingest window of a validator node's data plane.
//!
//! Packets arrive in batches from the network. Each batch is decoded into
//! shreds and filtered in parallel, the packets that survive are forwarded to
//! retransmit in the order they were received, and their shreds are handed to
//! the block store. A worker runs this pass in a loop until its exit flag is
//! raised or its inbound channel closes.
//!
//! The modules, leaves first: `identity`, `shred` and `packet` hold the data;
//! `admission` decides on one shred; `ingest` processes one batch; `pool`
//! provides the threads for it; `worker` is the loop's state machine and
//! `guard` its teardown guard.

pub mod admission;
pub mod guard;
pub mod identity;
pub mod ingest;
pub mod packet;
pub mod pool;
pub mod shred;
pub mod worker;

pub use crate::admission::should_retransmit_and_persist;
pub use crate::admission::Admission;
pub use crate::guard::Finalizer;
pub use crate::identity::Pubkey;
pub use crate::packet::Meta;
pub use crate::packet::Packet;
pub use crate::packet::Packets;
pub use crate::pool::NUM_THREADS;
pub use crate::shred::Shred;
