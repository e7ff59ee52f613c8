//! The admission filter: whether a decoded shred is retransmitted and stored.
//!
//! A shred is retained when the leader of its slot is known, is another node
//! than this one, and signed the shred. The leader schedule and the signature
//! check are supplied by the caller; the rule that combines their answers is
//! fixed here.

use crate::identity::Pubkey;
use crate::shred::Shred;
use vstd::prelude::*;

verus! {

/// The filter's verdict on one shred, with the reason for a rejection.
#[derive(Clone, Copy, Debug, PartialEq, Eq, Structural)]
pub enum Admission {
    /// Retransmit and store the shred.
    Retain,
    /// No leader is known for the shred's slot.
    UnknownLeader,
    /// This node leads the shred's slot: the shred came back to its origin.
    CircularTransmission,
    /// The shred is not signed by the leader of its slot.
    InvalidSignature,
}

/// The verdict on a shred whose slot has the leader `leader`, at the node
/// `my_pubkey`, where `signature_ok` says whether that leader signed the
/// shred. The checks apply in this order: leader known, leader is not this
/// node, signature valid.
pub open spec fn admission_of(leader: Option<Pubkey>, my_pubkey: Pubkey, signature_ok: bool)
    -> Admission {
    match leader {
        None => Admission::UnknownLeader,
        Some(leader_id) => if leader_id == my_pubkey {
            Admission::CircularTransmission
        } else if !signature_ok {
            Admission::InvalidSignature
        } else {
            Admission::Retain
        },
    }
}

/// The name of the counter that a verdict increments: none for `Retain`.
pub open spec fn counter_of(verdict: Admission) -> Option<Seq<char>> {
    match verdict {
        Admission::Retain => None,
        Admission::UnknownLeader => Some("streamer-recv_window-unknown_leader"@),
        Admission::CircularTransmission => Some("streamer-recv_window-circular_transmission"@),
        Admission::InvalidSignature => Some("streamer-recv_window-invalid_signature"@),
    }
}

/// `verdict` is a verdict that the rule can reach on `shred` with the answers
/// that `leader_schedule` and `fast_verify` can give: the schedule is asked
/// for the leader of the shred's slot, with `bank`, and the signature check is
/// made against the leader that it named.
pub open spec fn admission_outcome<
    B,
    L: Fn(u64, Option<&B>) -> Option<Pubkey>,
    V: Fn(&Shred, &[u8], &Pubkey) -> bool,
>(
    leader_schedule: L,
    fast_verify: V,
    shred: &Shred,
    shred_buf: &[u8],
    bank: Option<&B>,
    my_pubkey: Pubkey,
    verdict: Admission,
) -> bool {
    match verdict {
        Admission::UnknownLeader => call_ensures(leader_schedule, (shred.slot, bank), None),
        Admission::CircularTransmission => call_ensures(
            leader_schedule,
            (shred.slot, bank),
            Some(my_pubkey),
        ),
        Admission::InvalidSignature => exists|leader_id: Pubkey|
            leader_id != my_pubkey && #[trigger] call_ensures(
                leader_schedule,
                (shred.slot, bank),
                Some(leader_id),
            ) && call_ensures(fast_verify, (shred, shred_buf, &leader_id), false),
        Admission::Retain => exists|leader_id: Pubkey|
            leader_id != my_pubkey && #[trigger] call_ensures(
                leader_schedule,
                (shred.slot, bank),
                Some(leader_id),
            ) && call_ensures(fast_verify, (shred, shred_buf, &leader_id), true),
    }
}

/// Where the schedule has one answer for the shred's slot and the signature
/// check one answer for the leader it names, the verdict is the one that the
/// rule gives for those answers.
pub proof fn lemma_admission_determined<
    B,
    L: Fn(u64, Option<&B>) -> Option<Pubkey>,
    V: Fn(&Shred, &[u8], &Pubkey) -> bool,
>(
    leader_schedule: L,
    fast_verify: V,
    shred: &Shred,
    shred_buf: &[u8],
    bank: Option<&B>,
    my_pubkey: Pubkey,
    leader: Option<Pubkey>,
    signature_ok: bool,
    verdict: Admission,
)
    requires
        admission_outcome(leader_schedule, fast_verify, shred, shred_buf, bank, my_pubkey, verdict),
        forall|answer: Option<Pubkey>|
            call_ensures(leader_schedule, (shred.slot, bank), answer) ==> answer == leader,
        forall|leader_id: Pubkey, ok: bool|
            leader == Some(leader_id) && call_ensures(
                fast_verify,
                (shred, shred_buf, &leader_id),
                ok,
            ) ==> ok == signature_ok,
    ensures
        verdict == admission_of(leader, my_pubkey, signature_ok),
{
}

impl Admission {
    /// Whether the shred is retransmitted and stored.
    pub fn is_retained(&self) -> (retained: bool)
        ensures
            retained == (*self == Admission::Retain),
    {
        match self {
            Admission::Retain => true,
            _ => false,
        }
    }

    /// The counter to increment for this verdict, if it is a rejection.
    pub fn counter(&self) -> (name: Option<&'static str>)
        ensures
            match name {
                Some(text) => counter_of(*self) == Some(text@),
                None => counter_of(*self) is None,
            },
    {
        match self {
            Admission::Retain => None,
            Admission::UnknownLeader => Some("streamer-recv_window-unknown_leader"),
            Admission::CircularTransmission => Some("streamer-recv_window-circular_transmission"),
            Admission::InvalidSignature => Some("streamer-recv_window-invalid_signature"),
        }
    }
}

/// The verdict for a leader lookup and a signature check that were already
/// made. `signature_ok` is read only where a leader other than this node is
/// known.
pub fn classify(leader: &Option<Pubkey>, my_pubkey: &Pubkey, signature_ok: bool) -> (verdict:
    Admission)
    ensures
        verdict == admission_of(*leader, *my_pubkey, signature_ok),
{
    match leader {
        None => Admission::UnknownLeader,
        Some(leader_id) => {
            if *leader_id == *my_pubkey {
                Admission::CircularTransmission
            } else if !signature_ok {
                Admission::InvalidSignature
            } else {
                Admission::Retain
            }
        },
    }
}

/// Decides on one shred and says why. Asks `leader_schedule` for the leader of
/// the shred's slot, passing `bank` through, and checks the signature with
/// `fast_verify` only against a leader that is known and is not this node.
pub fn admission<
    B,
    L: Fn(u64, Option<&B>) -> Option<Pubkey>,
    V: Fn(&Shred, &[u8], &Pubkey) -> bool,
>(
    shred: &Shred,
    shred_buf: &[u8],
    bank: Option<&B>,
    leader_schedule: &L,
    my_pubkey: &Pubkey,
    fast_verify: &V,
) -> (verdict: Admission)
    requires
        forall|slot: u64, bank: Option<&B>| call_requires(*leader_schedule, (slot, bank)),
        forall|shred: &Shred, buf: &[u8], leader_id: &Pubkey|
            call_requires(*fast_verify, (shred, buf, leader_id)),
    ensures
        admission_outcome(
            *leader_schedule,
            *fast_verify,
            shred,
            shred_buf,
            bank,
            *my_pubkey,
            verdict,
        ),
{
    let leader = leader_schedule(shred.slot(), bank);
    let signature_ok = match &leader {
        Some(leader_id) => {
            if *leader_id == *my_pubkey {
                false
            } else {
                fast_verify(shred, shred_buf, leader_id)
            }
        },
        None => false,
    };
    classify(&leader, my_pubkey, signature_ok)
}

/// Whether a shred is retransmitted and stored: `true` exactly when
/// `admission` retains it. Shreds from this node itself, shreds of a slot with
/// no known leader and shreds that the slot's leader did not sign are dropped.
pub fn should_retransmit_and_persist<
    B,
    L: Fn(u64, Option<&B>) -> Option<Pubkey>,
    V: Fn(&Shred, &[u8], &Pubkey) -> bool,
>(
    shred: &Shred,
    shred_buf: &[u8],
    bank: Option<&B>,
    leader_schedule: &L,
    my_pubkey: &Pubkey,
    fast_verify: &V,
) -> (retain: bool)
    requires
        forall|slot: u64, bank: Option<&B>| call_requires(*leader_schedule, (slot, bank)),
        forall|shred: &Shred, buf: &[u8], leader_id: &Pubkey|
            call_requires(*fast_verify, (shred, buf, leader_id)),
    ensures
        exists|verdict: Admission|
            retain == (verdict == Admission::Retain) && #[trigger] admission_outcome(
                *leader_schedule,
                *fast_verify,
                shred,
                shred_buf,
                bank,
                *my_pubkey,
                verdict,
            ),
{
    admission(shred, shred_buf, bank, leader_schedule, my_pubkey, fast_verify).is_retained()
}

} // verus!
