//! One unit of ingest work: a received batch is decoded and filtered packet by
//! packet on a thread pool, cut down to the packets that survived, and split
//! into what goes to retransmit and what goes to the block store.

use crate::packet::Meta;
use crate::packet::Packet;
use crate::packet::Packets;
use crate::shred::Shred;
use rayon::iter::IndexedParallelIterator;
use rayon::iter::IntoParallelRefMutIterator;
use rayon::iter::ParallelIterator;
use rayon::ThreadPool;
use vstd::prelude::*;

verus! {

/// `decode`, given the bytes `raw`, can answer `decoded`.
pub open spec fn decodes_to<D: Fn(&[u8]) -> Option<Shred>>(
    decode: D,
    raw: Seq<u8>,
    decoded: Option<Shred>,
) -> bool {
    exists|buf: &[u8]| buf@ == raw && #[trigger] call_ensures(decode, (buf,), decoded)
}

/// `filter`, asked about `shred` and the bytes `raw` it came from, can answer
/// `verdict`.
pub open spec fn answers<F: Fn(&Shred, &[u8]) -> bool>(
    filter: F,
    shred: Shred,
    raw: Seq<u8>,
    verdict: bool,
) -> bool {
    exists|buf: &[u8]| buf@ == raw && #[trigger] call_ensures(filter, (&shred, buf), verdict)
}

/// The packet `before` survived as `after`, carrying `shred`: its bytes decode
/// to `shred`, the filter accepts the pair, the bytes are untouched, and the
/// side-band now holds the shred's slot and seed.
pub open spec fn kept<D: Fn(&[u8]) -> Option<Shred>, F: Fn(&Shred, &[u8]) -> bool>(
    decode: D,
    filter: F,
    before: Packet,
    after: Packet,
    shred: Shred,
) -> bool {
    &&& after.data == before.data
    &&& after.meta == (Meta { slot: shred.slot, seed: shred.seed })
    &&& decodes_to(decode, before.data@, Some(shred))
    &&& answers(filter, shred, before.data@, true)
}

/// The packet is dropped: its bytes do not decode, or they decode to a shred
/// that the filter rejects.
pub open spec fn dropped<D: Fn(&[u8]) -> Option<Shred>, F: Fn(&Shred, &[u8]) -> bool>(
    decode: D,
    filter: F,
    packet: Packet,
) -> bool {
    ||| decodes_to(decode, packet.data@, None)
    ||| exists|shred: Shred| #[trigger]
        decodes_to(decode, packet.data@, Some(shred)) && answers(
            filter,
            shred,
            packet.data@,
            false,
        )
}

/// The packet can survive: its bytes can decode to a shred that the filter
/// can accept.
pub open spec fn admissible<D: Fn(&[u8]) -> Option<Shred>, F: Fn(&Shred, &[u8]) -> bool>(
    decode: D,
    filter: F,
    packet: Packet,
) -> bool {
    exists|shred: Shred| #[trigger]
        decodes_to(decode, packet.data@, Some(shred)) && answers(
            filter,
            shred,
            packet.data@,
            true,
        )
}

/// `positions` ascends strictly and stays below `len`.
pub open spec fn ascending_below(positions: Seq<usize>, len: nat) -> bool {
    &&& forall|k: int| 0 <= k < positions.len() ==> (#[trigger] positions[k]) < len
    &&& forall|j: int, k: int|
        0 <= j < k < positions.len() ==> (#[trigger] positions[j]) < (#[trigger] positions[k])
}

/// `position` is one of `positions`.
pub open spec fn listed(positions: Seq<usize>, position: int) -> bool {
    exists|k: int| 0 <= k < positions.len() && #[trigger] positions[k] == position
}

/// The packets of `packets` whose position is listed in `positions`, in the
/// order they have in `packets`.
pub open spec fn selected(packets: Seq<Packet>, positions: Seq<usize>) -> Seq<Packet>
    decreases packets.len(),
{
    if packets.len() == 0 {
        Seq::empty()
    } else {
        let front = selected(packets.drop_last(), positions);
        if listed(positions, packets.len() - 1) {
            front.push(packets.last())
        } else {
            front
        }
    }
}

/// All packets of `batches`, batch after batch.
pub open spec fn concatenated(batches: Seq<Packets>) -> Seq<Packet>
    decreases batches.len(),
{
    if batches.len() == 0 {
        Seq::empty()
    } else {
        concatenated(batches.drop_last()) + batches.last().packets@
    }
}

/// What the decode-and-filter stage did to a batch. `before` and `after` are
/// the batch on entry and on return, `positions` the places of the survivors
/// and `shreds` what they decoded to, both in batch order.
pub open spec fn stage_outcome<D: Fn(&[u8]) -> Option<Shred>, F: Fn(&Shred, &[u8]) -> bool>(
    decode: D,
    filter: F,
    before: Seq<Packet>,
    after: Seq<Packet>,
    shreds: Seq<Shred>,
    positions: Seq<usize>,
) -> bool {
    &&& after.len() == before.len()
    &&& shreds.len() == positions.len()
    &&& ascending_below(positions, before.len())
    &&& forall|k: int|
        #![trigger positions[k]]
        0 <= k < positions.len() ==> kept(
            decode,
            filter,
            before[positions[k] as int],
            after[positions[k] as int],
            shreds[k],
        )
    &&& forall|i: int|
        #![trigger before[i]]
        0 <= i < before.len() && !listed(positions, i) ==> after[i] == before[i] && dropped(
            decode,
            filter,
            before[i],
        )
}

/// Two position lists that list the same places below `packets.len()` select
/// the same packets.
pub proof fn lemma_selected_by_listing(packets: Seq<Packet>, a: Seq<usize>, b: Seq<usize>)
    requires
        forall|i: int| 0 <= i < packets.len() ==> listed(a, i) == listed(b, i),
    ensures
        selected(packets, a) == selected(packets, b),
    decreases packets.len(),
{
    if packets.len() > 0 {
        lemma_selected_by_listing(packets.drop_last(), a, b);
    }
}

/// For positions that ascend strictly within the batch, selection is the
/// list of the packets at those positions: the k-th selected packet is the one
/// at the k-th position.
pub proof fn lemma_selected_ascending(packets: Seq<Packet>, positions: Seq<usize>)
    requires
        ascending_below(positions, packets.len()),
    ensures
        selected(packets, positions).len() == positions.len(),
        forall|k: int|
            0 <= k < positions.len() ==> selected(packets, positions)[k] == packets[(
            #[trigger] positions[k]) as int],
    decreases packets.len(),
{
    if packets.len() == 0 {
        if positions.len() > 0 {
            assert(positions[0] < 0);
        }
    } else {
        let last = packets.len() - 1;
        let front = packets.drop_last();
        if listed(positions, last) {
            let k = choose|k: int| 0 <= k < positions.len() && #[trigger] positions[k] == last;
            if k + 1 < positions.len() {
                assert(positions[k] < positions[k + 1]);
                assert(positions[k + 1] < packets.len());
            }
            let rest = positions.drop_last();
            assert forall|i: int| 0 <= i < front.len() implies listed(positions, i) == listed(
                rest,
                i,
            ) by {
                if listed(positions, i) {
                    let j = choose|j: int| 0 <= j < positions.len() && #[trigger] positions[j] == i;
                    assert(rest[j] == i);
                }
                if listed(rest, i) {
                    let j = choose|j: int| 0 <= j < rest.len() && #[trigger] rest[j] == i;
                    assert(positions[j] == i);
                }
            }
            lemma_selected_by_listing(front, positions, rest);
            assert forall|j: int| 0 <= j < rest.len() implies (#[trigger] rest[j]) < front.len() by {
                assert(positions[j] < positions[k]);
            }
            lemma_selected_ascending(front, rest);
            assert(k == positions.len() - 1);
            assert forall|j: int| 0 <= j < positions.len() implies selected(packets, positions)[j]
                == packets[(#[trigger] positions[j]) as int] by {
                if j < rest.len() {
                    assert(selected(front, rest)[j] == front[rest[j] as int]);
                }
            }
        } else {
            assert forall|j: int| 0 <= j < positions.len() implies (#[trigger] positions[j])
                < front.len() by {
                assert(positions[j] < packets.len());
                if positions[j] == last {
                    assert(listed(positions, last));
                }
            }
            lemma_selected_ascending(front, positions);
            assert forall|j: int| 0 <= j < positions.len() implies selected(packets, positions)[j]
                == packets[(#[trigger] positions[j]) as int] by {
                assert(selected(front, positions)[j] == front[positions[j] as int]);
            }
        }
    }
}

/// Appends the packets of the batches that were waiting behind `first` to it,
/// in the order the batches arrived.
pub fn coalesce(first: Packets, follow_on: Vec<Packets>) -> (batch: Packets)
    ensures
        batch.packets@ == first.packets@ + concatenated(follow_on@),
{
    let mut batch = first;
    let ghost arrived: Seq<Packets> = follow_on@;
    let total = follow_on.len();
    let mut done: usize = 0;
    for more in it: follow_on
        invariant
            it.seq() == arrived,
            arrived.len() == total,
            done == it.index(),
            batch.packets@ == first.packets@ + concatenated(arrived.take(done as int)),
    {
        let mut more = more;
        proof {
            assert(arrived.take(done + 1).drop_last() == arrived.take(done as int));
        }
        batch.packets.append(&mut more.packets);
        done = done + 1;
    }
    proof {
        assert(arrived.take(done as int) == arrived);
    }
    batch
}

/// Decodes one packet and asks the filter about it. A packet that decodes and
/// is accepted gets the shred's slot and seed written into its side-band and
/// yields the shred; any other packet is left as it was and yields nothing.
pub fn admit_packet<D: Fn(&[u8]) -> Option<Shred>, F: Fn(&Shred, &[u8]) -> bool>(
    packet: &mut Packet,
    decode: &D,
    filter: &F,
) -> (admitted: Option<Shred>)
    requires
        forall|buf: &[u8]| call_requires(*decode, (buf,)),
        forall|shred: &Shred, buf: &[u8]| call_requires(*filter, (shred, buf)),
    ensures
        match admitted {
            Some(shred) => kept(*decode, *filter, *old(packet), *final(packet), shred),
            None => *final(packet) == *old(packet) && dropped(*decode, *filter, *old(packet)),
        },
{
    let decoded = decode(packet.data.as_slice());
    match decoded {
        Some(shred) => {
            let accepted = filter(&shred, packet.data.as_slice());
            assert(decodes_to(*decode, old(packet).data@, Some(shred)));
            assert(answers(*filter, shred, old(packet).data@, accepted));
            if accepted {
                packet.meta.slot = shred.slot();
                packet.meta.seed = shred.seed();
                Some(shred)
            } else {
                None
            }
        },
        None => {
            assert(decodes_to(*decode, old(packet).data@, None));
            None
        },
    }
}

/// `admit_packet` for the packet at `position`, which is handed back beside
/// the shred.
fn admit_at<D: Fn(&[u8]) -> Option<Shred>, F: Fn(&Shred, &[u8]) -> bool>(
    position: usize,
    packet: &mut Packet,
    decode: &D,
    filter: &F,
) -> (admitted: Option<(Shred, usize)>)
    requires
        forall|buf: &[u8]| call_requires(*decode, (buf,)),
        forall|shred: &Shred, buf: &[u8]| call_requires(*filter, (shred, buf)),
    ensures
        match admitted {
            Some(pair) => pair.1 == position && kept(
                *decode,
                *filter,
                *old(packet),
                *final(packet),
                pair.0,
            ),
            None => *final(packet) == *old(packet) && dropped(*decode, *filter, *old(packet)),
        },
{
    match admit_packet(packet, decode, filter) {
        Some(shred) => Some((shred, position)),
        None => None,
    }
}

/// Runs `admit_at` on every packet of the batch, on the threads of `pool`.
///
/// Trusted: rayon's `ThreadPool::install`, and its `par_iter_mut`, `enumerate`,
/// `filter_map` and `unzip` on a `Vec`. The contract claims that `enumerate`
/// numbers the packets from 0 in batch order, that `filter_map` calls the
/// closure once on each numbered packet, and that `unzip` into two `Vec`s
/// gives what the calls returned in batch order: the shreds, and beside them
/// the positions they came from.
#[verifier::external_body]
fn decode_and_filter<D: Fn(&[u8]) -> Option<Shred> + Sync, F: Fn(&Shred, &[u8]) -> bool + Sync>(
    pool: &ThreadPool,
    packets: &mut Vec<Packet>,
    decode: &D,
    filter: &F,
) -> (found: (Vec<Shred>, Vec<usize>))
    requires
        forall|buf: &[u8]| call_requires(*decode, (buf,)),
        forall|shred: &Shred, buf: &[u8]| call_requires(*filter, (shred, buf)),
    ensures
        stage_outcome(*decode, *filter, old(packets)@, final(packets)@, found.0@, found.1@),
{
    pool.install(
        || packets.par_iter_mut().enumerate().filter_map(|(i, p)| admit_at(i, p, decode, filter)).unzip(),
    )
}

/// Cuts `packets` down to the packets whose position is listed in
/// `positions`, keeping their order. Positions past the end, and repeated
/// ones, change nothing.
pub fn retain_by_index(packets: &mut Vec<Packet>, positions: &Vec<usize>)
    ensures
        final(packets)@ == selected(old(packets)@, positions@),
{
    let count = packets.len();
    let mut keep: Vec<bool> = Vec::new();
    while keep.len() < count
        invariant
            keep.len() <= count,
            forall|i: int| 0 <= i < keep.len() ==> !keep[i],
        decreases count - keep.len(),
    {
        keep.push(false);
    }
    let mut seen: usize = 0;
    while seen < positions.len()
        invariant
            seen <= positions.len(),
            keep.len() == count,
            forall|i: int| 0 <= i < count ==> keep[i] == listed(positions@.take(seen as int), i),
        decreases positions.len() - seen,
    {
        let position = positions[seen];
        proof {
            let earlier = positions@.take(seen as int);
            let now = positions@.take(seen + 1);
            assert forall|i: int| 0 <= i < count implies listed(now, i) == (listed(earlier, i) || i
                == position) by {
                if listed(earlier, i) {
                    let k = choose|k: int| 0 <= k < earlier.len() && #[trigger] earlier[k] == i;
                    assert(now[k] == i);
                }
                if i == position {
                    assert(now[seen as int] == i);
                }
                if listed(now, i) {
                    let k = choose|k: int| 0 <= k < now.len() && #[trigger] now[k] == i;
                    if k < seen {
                        assert(earlier[k] == i);
                    }
                }
            }
        }
        if position < count {
            keep[position] = true;
        }
        seen = seen + 1;
    }
    proof {
        assert(positions@.take(seen as int) == positions@);
    }
    let mut source: Vec<Packet> = Vec::new();
    core::mem::swap(&mut source, packets);
    let ghost all: Seq<Packet> = source@;
    let mut at: usize = 0;
    for packet in it: source
        invariant
            it.seq() == all,
            all.len() == count,
            keep.len() == count,
            at == it.index(),
            forall|i: int| 0 <= i < count ==> keep[i] == listed(positions@, i),
            packets@ == selected(all.take(at as int), positions@),
    {
        proof {
            assert(all.take(at + 1).drop_last() == all.take(at as int));
        }
        if keep[at] {
            packets.push(packet);
        }
        at = at + 1;
    }
    proof {
        assert(all.take(at as int) == all);
    }
}

/// What one ingest pass hands on.
#[derive(Debug)]
pub struct Ingested {
    /// The surviving packets, in receive order, annotated for retransmit.
    pub packets: Packets,
    /// What the surviving packets decoded to, packet by packet.
    pub shreds: Vec<Shred>,
    /// Where each surviving packet stood in the received batch.
    pub positions: Vec<usize>,
}

impl Ingested {
    /// The batch that goes to retransmit: the surviving packets, if there are
    /// any. An empty batch is not sent.
    pub open spec fn forwarded(self) -> Option<Packets> {
        if self.packets.packets@.len() > 0 {
            Some(self.packets)
        } else {
            None
        }
    }

    /// The shreds that go to the block store: all of them, also when there
    /// are none.
    pub open spec fn persisted(self) -> Vec<Shred> {
        self.shreds
    }

    /// Splits the result into the batch to send to retransmit, if any, and the
    /// shreds to insert into the block store.
    pub fn into_actions(self) -> (actions: (Option<Packets>, Vec<Shred>))
        ensures
            actions.0 == self.forwarded(),
            actions.1 == self.persisted(),
    {
        if self.packets.packets.len() > 0 {
            (Some(self.packets), self.shreds)
        } else {
            (None, self.shreds)
        }
    }
}

/// Decodes and filters a received batch on `pool` and keeps the survivors.
///
/// The retained packets, the shreds and the positions correspond one to one.
/// The k-th packet is the packet that stood at the k-th position of the
/// batch; its bytes decode to the k-th shred, the filter accepted that pair,
/// and its side-band carries that shred's slot and seed. The positions ascend,
/// so survivors keep their receive order. Every packet at a position that is
/// not listed failed to decode or was rejected by the filter. Whatever is
/// persisted was also forwarded, and a batch without an admissible packet
/// yields nothing to forward and nothing to persist.
pub fn ingest<D: Fn(&[u8]) -> Option<Shred> + Sync, F: Fn(&Shred, &[u8]) -> bool + Sync>(
    pool: &ThreadPool,
    batch: Packets,
    decode: &D,
    filter: &F,
) -> (out: Ingested)
    requires
        forall|buf: &[u8]| call_requires(*decode, (buf,)),
        forall|shred: &Shred, buf: &[u8]| call_requires(*filter, (shred, buf)),
    ensures
        // as many packets as shreds as positions
        out.packets.packets@.len() == out.shreds@.len(),
        out.positions@.len() == out.shreds@.len(),
        // each packet carries the slot and seed of its shred
        forall|k: int|
            0 <= k < out.shreds@.len() ==> (#[trigger] out.packets.packets@[k]).meta.slot
                == out.shreds@[k].slot && out.packets.packets@[k].meta.seed == out.shreds@[k].seed,
        // survivors stand in receive order: a packet that was received earlier
        // is retained earlier
        ascending_below(out.positions@, batch.packets@.len()),
        forall|j: int, k: int|
            0 <= j < out.positions@.len() && 0 <= k < out.positions@.len() ==> ((
            #[trigger] out.positions@[j]) < (#[trigger] out.positions@[k]) <==> j < k),
        // each packet has the bytes of the packet at its position
        forall|k: int|
            0 <= k < out.shreds@.len() ==> out.packets.packets@[k].data == batch.packets@[(
            #[trigger] out.positions@[k]) as int].data,
        // the filter accepted every shred, with the bytes of its packet
        forall|k: int|
            0 <= k < out.shreds@.len() ==> answers(
                *filter,
                #[trigger] out.shreds@[k],
                out.packets.packets@[k].data@,
                true,
            ),
        // each packet decodes to its shred
        forall|k: int|
            0 <= k < out.shreds@.len() ==> decodes_to(
                *decode,
                (#[trigger] out.packets.packets@[k]).data@,
                Some(out.shreds@[k]),
            ),
        // every shred that is persisted has its packet in the forwarded batch
        forall|k: int|
            0 <= k < out.persisted()@.len() ==> out.forwarded() is Some && decodes_to(
                *decode,
                out.forwarded().unwrap().packets@[k].data@,
                Some(#[trigger] out.persisted()@[k]),
            ),
        // every other packet failed to decode or was rejected
        forall|i: int|
            #![trigger batch.packets@[i]]
            0 <= i < batch.packets@.len() && !listed(out.positions@, i) ==> dropped(
                *decode,
                *filter,
                batch.packets@[i],
            ),
        // survivors are admissible; where no packet is, nothing is forwarded
        // and nothing persisted
        forall|k: int|
            0 <= k < out.positions@.len() ==> admissible(
                *decode,
                *filter,
                batch.packets@[(#[trigger] out.positions@[k]) as int],
            ),
        (forall|i: int|
            0 <= i < batch.packets@.len() ==> !admissible(
                *decode,
                *filter,
                #[trigger] batch.packets@[i],
            )) ==> out.forwarded() is None && out.persisted()@.len() == 0,
{
    let mut packets = batch;
    let (shreds, positions) = decode_and_filter(pool, &mut packets.packets, decode, filter);
    let ghost annotated = packets.packets@;
    retain_by_index(&mut packets.packets, &positions);
    proof {
        lemma_selected_ascending(annotated, positions@);
        assert forall|k: int| 0 <= k < positions@.len() implies kept(
            *decode,
            *filter,
            batch.packets@[(#[trigger] positions@[k]) as int],
            packets.packets@[k],
            shreds@[k],
        ) by {
            assert(packets.packets@[k] == annotated[positions@[k] as int]);
        }
        assert forall|j: int, k: int|
            0 <= j < positions@.len() && 0 <= k < positions@.len() implies ((
        #[trigger] positions@[j]) < (#[trigger] positions@[k]) <==> j < k) by {
            if j < k {
                assert(positions@[j] < positions@[k]);
            } else if k < j {
                assert(positions@[k] < positions@[j]);
            }
        }
        assert forall|k: int| 0 <= k < shreds@.len() implies (
        #[trigger] packets.packets@[k]).meta.slot == shreds@[k].slot && packets.packets@[k].meta.seed
            == shreds@[k].seed && packets.packets@[k].data == batch.packets@[positions@[k] as int].data
            && answers(*filter, shreds@[k], packets.packets@[k].data@, true) && decodes_to(
            *decode,
            packets.packets@[k].data@,
            Some(shreds@[k]),
        ) && admissible(*decode, *filter, batch.packets@[positions@[k] as int]) by {
            assert(kept(
                *decode,
                *filter,
                batch.packets@[positions@[k] as int],
                packets.packets@[k],
                shreds@[k],
            ));
        }
        if positions@.len() > 0 {
            assert(admissible(*decode, *filter, batch.packets@[positions@[0] as int]));
        }
    }
    Ingested { packets, shreds, positions }
}

} // verus!
