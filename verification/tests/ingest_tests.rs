use std::sync::atomic::{AtomicUsize, Ordering};
use window_service::admission::admission;
use window_service::ingest::{admit_packet, coalesce, ingest, retain_by_index};
use window_service::pool::thread_pool;
use window_service::{Meta, Packet, Packets, Pubkey, Shred};

const PACKET_SIZE: usize = 256;
const MAGIC: u32 = 0x5348_5244;

type Wire = (u32, u64, u32, [u8; 32], Vec<u8>);

fn make_shred(slot: u64, index: u32) -> Shred {
    let mut seed = [0u8; 32];
    seed[0] = slot as u8;
    seed[1] = index as u8;
    seed[31] = 0xee;
    Shred::new(slot, index, [0u8; 64], seed, vec![index as u8; 4])
}

fn to_packet(shred: &Shred) -> Packet {
    let wire: Wire = (MAGIC, shred.slot, shred.index, shred.seed, shred.payload.clone());
    let mut data = bincode::serialize(&wire).unwrap();
    assert!(data.len() <= PACKET_SIZE);
    data.resize(PACKET_SIZE, 0);
    Packet::new(data)
}

fn empty_packet() -> Packet {
    Packet::new(vec![0u8; PACKET_SIZE])
}

fn decode(buf: &[u8]) -> Option<Shred> {
    let (magic, slot, index, seed, payload) = bincode::deserialize::<Wire>(buf).ok()?;
    if magic != MAGIC {
        return None;
    }
    Some(Shred::new(slot, index, [0u8; 64], seed, payload))
}

fn accept_all(_shred: &Shred, _buf: &[u8]) -> bool {
    true
}

fn make_many_slot_shreds(start_slot: u64, num_slots: u64, per_slot: u32) -> Vec<Shred> {
    let mut shreds = Vec::new();
    for slot in start_slot..start_slot + num_slots {
        for index in 0..per_slot {
            shreds.push(make_shred(slot, index));
        }
    }
    shreds
}

/// A fixed permutation of `0..len`: position `i` gets the item `(i * 7 + 3) % len`.
fn shuffled<T: Clone>(items: &[T]) -> Vec<T> {
    let len = items.len();
    assert!(len % 7 != 0);
    (0..len).map(|i| items[(i * 7 + 3) % len].clone()).collect()
}

fn annotated(shred: &Shred) -> Packet {
    let mut packet = to_packet(shred);
    packet.meta = Meta { slot: shred.slot, seed: shred.seed };
    packet
}

#[test]
fn test_recv_window() {
    let pool = thread_pool(4).unwrap();
    // 5 slots worth of data
    let shreds = make_many_slot_shreds(0, 5, 10);
    let packets: Vec<Packet> = shreds.iter().map(to_packet).collect();
    let mut packets = Packets::new(packets);
    let out = ingest(&pool, packets.clone(), &decode, &accept_all);
    assert_eq!(out.shreds, shreds);
    assert_eq!(out.packets.packets.len(), 50);

    // add some empty packets to the data set. These fail to decode
    packets.packets.append(&mut vec![empty_packet(); 10]);
    packets.packets = shuffled(&packets.packets);
    let out = ingest(&pool, packets.clone(), &decode, &accept_all);
    assert_eq!(out.shreds.len(), 50);
    assert_eq!(out.packets.packets.len(), 50);

    // 1 empty packet that cannot decode into a shred
    let out = ingest(&pool, Packets::new(vec![empty_packet(); 1]), &decode, &accept_all);
    assert!(out.shreds.is_empty());
    assert!(out.packets.is_empty());
    let (retransmit, persist) = out.into_actions();
    assert_eq!(retransmit, None);
    assert!(persist.is_empty());
}

#[test]
fn happy_path_forwards_all_in_input_order() {
    let pool = thread_pool(4).unwrap();
    let shreds = make_many_slot_shreds(0, 1, 50);
    let batch = Packets::new(shreds.iter().map(to_packet).collect());
    let out = ingest(&pool, batch, &decode, &accept_all);
    assert_eq!(out.positions, (0..50).collect::<Vec<usize>>());
    assert_eq!(out.shreds, shreds);
    let expected: Vec<Packet> = shreds.iter().map(annotated).collect();
    assert_eq!(out.packets.packets, expected);
    let (retransmit, persist) = out.into_actions();
    let sent = retransmit.expect("a batch for retransmit");
    assert_eq!(sent.len(), 50);
    assert_eq!(sent.packets, expected);
    assert_eq!(persist.len(), 50);
    assert!(persist.iter().all(|shred| shred.slot == 0));
}

#[test]
fn noise_is_dropped_and_valid_packets_keep_their_order() {
    let pool = thread_pool(4).unwrap();
    let shreds = make_many_slot_shreds(0, 1, 50);
    let mut tagged: Vec<(Option<Shred>, Packet)> =
        shreds.iter().map(|s| (Some(s.clone()), to_packet(s))).collect();
    tagged.extend((0..10).map(|_| (None, empty_packet())));
    let tagged = shuffled(&tagged);
    let batch = Packets::new(tagged.iter().map(|(_, p)| p.clone()).collect());
    let expected_positions: Vec<usize> =
        (0..tagged.len()).filter(|i| tagged[*i].0.is_some()).collect();
    let expected_shreds: Vec<Shred> = tagged.iter().filter_map(|(s, _)| s.clone()).collect();
    assert_ne!(expected_shreds, shreds);

    let out = ingest(&pool, batch, &decode, &accept_all);
    assert_eq!(out.positions, expected_positions);
    assert_eq!(out.shreds, expected_shreds);
    assert_eq!(out.packets.len(), 50);
    let expected_packets: Vec<Packet> = expected_shreds.iter().map(annotated).collect();
    assert_eq!(out.packets.packets, expected_packets);
    let (retransmit, persist) = out.into_actions();
    assert_eq!(retransmit.unwrap().len(), 50);
    assert_eq!(persist.len(), 50);
}

#[test]
fn all_noise_forwards_and_persists_nothing() {
    let pool = thread_pool(2).unwrap();
    let batch = Packets::new(vec![empty_packet(); 10]);
    let out = ingest(&pool, batch, &decode, &accept_all);
    assert!(out.positions.is_empty());
    let (retransmit, persist) = out.into_actions();
    assert_eq!(retransmit, None);
    assert!(persist.is_empty());
}

#[test]
fn empty_batch_forwards_and_persists_nothing() {
    let pool = thread_pool(2).unwrap();
    let out = ingest(&pool, Packets::new(Vec::new()), &decode, &accept_all);
    assert!(out.packets.is_empty());
    assert!(out.shreds.is_empty());
    assert!(out.positions.is_empty());
    let (retransmit, persist) = out.into_actions();
    assert_eq!(retransmit, None);
    assert!(persist.is_empty());
}

#[test]
fn all_filtered_out_forwards_and_persists_nothing() {
    let pool = thread_pool(2).unwrap();
    let shreds = make_many_slot_shreds(3, 1, 8);
    let batch = Packets::new(shreds.iter().map(to_packet).collect());
    let reject_all = |_shred: &Shred, _buf: &[u8]| -> bool { false };
    let out = ingest(&pool, batch, &decode, &reject_all);
    let (retransmit, persist) = out.into_actions();
    assert_eq!(retransmit, None);
    assert!(persist.is_empty());
}

#[test]
fn one_malformed_packet_among_valid_ones() {
    let pool = thread_pool(2).unwrap();
    let shreds = make_many_slot_shreds(1, 1, 4);
    let mut packets: Vec<Packet> = shreds.iter().map(to_packet).collect();
    packets.insert(2, empty_packet());
    let out = ingest(&pool, Packets::new(packets), &decode, &accept_all);
    assert_eq!(out.positions, vec![0, 1, 3, 4]);
    assert_eq!(out.shreds, shreds);
    let expected: Vec<Packet> = shreds.iter().map(annotated).collect();
    assert_eq!(out.packets.packets, expected);
}

#[test]
fn survivors_carry_slot_and_seed_of_their_shred() {
    let pool = thread_pool(3).unwrap();
    let shreds = make_many_slot_shreds(10, 4, 5);
    let batch = Packets::new(shreds.iter().map(to_packet).collect());
    let odd_index = |shred: &Shred, _buf: &[u8]| -> bool { shred.index % 2 == 1 };
    let out = ingest(&pool, batch.clone(), &decode, &odd_index);
    assert_eq!(out.packets.len(), out.shreds.len());
    assert_eq!(out.positions.len(), out.shreds.len());
    assert_eq!(out.shreds.len(), 8);
    for k in 0..out.shreds.len() {
        assert_eq!(out.packets.packets[k].meta.slot, out.shreds[k].slot);
        assert_eq!(out.packets.packets[k].meta.seed, out.shreds[k].seed);
        assert_eq!(out.packets.packets[k].data, batch.packets[out.positions[k]].data);
        assert_eq!(decode(&out.packets.packets[k].data), Some(out.shreds[k].clone()));
        assert!(odd_index(&out.shreds[k], &out.packets.packets[k].data));
        if k > 0 {
            assert!(out.positions[k - 1] < out.positions[k]);
        }
    }
}

#[test]
fn filter_sees_the_shred_and_its_raw_bytes() {
    let pool = thread_pool(2).unwrap();
    let shreds = make_many_slot_shreds(0, 1, 6);
    let batch = Packets::new(shreds.iter().map(to_packet).collect());
    let calls = AtomicUsize::new(0);
    let matching = |shred: &Shred, buf: &[u8]| -> bool {
        calls.fetch_add(1, Ordering::Relaxed);
        decode(buf).as_ref() == Some(shred) && buf.len() == PACKET_SIZE
    };
    let out = ingest(&pool, batch, &decode, &matching);
    assert_eq!(out.shreds, shreds);
    assert_eq!(calls.load(Ordering::Relaxed), 6);
}

#[test]
fn duplicate_shreds_are_handed_on_as_they_are() {
    let pool = thread_pool(2).unwrap();
    let shred = make_shred(2, 1);
    let batch = Packets::new(vec![to_packet(&shred); 3]);
    let out = ingest(&pool, batch, &decode, &accept_all);
    assert_eq!(out.positions, vec![0, 1, 2]);
    assert_eq!(out.shreds, vec![shred.clone(), shred.clone(), shred]);
}

#[test]
fn shreds_led_by_this_node_are_dropped_and_counted() {
    let pool = thread_pool(2).unwrap();
    let me = Pubkey::new([1u8; 32]);
    let circular = AtomicUsize::new(0);
    let others = AtomicUsize::new(0);
    let schedule = |_slot: u64, _bank: Option<&()>| -> Option<Pubkey> { Some(me) };
    let verify = |_shred: &Shred, _buf: &[u8], _leader: &Pubkey| -> bool { true };
    let filter = |shred: &Shred, buf: &[u8]| -> bool {
        let verdict = admission(shred, buf, None, &schedule, &me, &verify);
        match verdict.counter() {
            Some("streamer-recv_window-circular_transmission") => {
                circular.fetch_add(1, Ordering::Relaxed);
            }
            Some(_) => {
                others.fetch_add(1, Ordering::Relaxed);
            }
            None => {}
        }
        verdict.is_retained()
    };
    let shreds = make_many_slot_shreds(0, 1, 5);
    let batch = Packets::new(shreds.iter().map(to_packet).collect());
    let out = ingest(&pool, batch, &decode, &filter);
    assert!(out.packets.is_empty());
    let (retransmit, persist) = out.into_actions();
    assert_eq!(retransmit, None);
    assert!(persist.is_empty());
    assert_eq!(circular.load(Ordering::Relaxed), 5);
    assert_eq!(others.load(Ordering::Relaxed), 0);
}

#[test]
fn admit_packet_annotates_an_accepted_packet() {
    let shred = make_shred(12, 3);
    let mut packet = to_packet(&shred);
    let before = packet.clone();
    assert_eq!(before.meta, Meta { slot: 0, seed: [0u8; 32] });
    let admitted = admit_packet(&mut packet, &decode, &accept_all);
    assert_eq!(admitted, Some(shred.clone()));
    assert_eq!(packet.data, before.data);
    assert_eq!(packet.meta, Meta { slot: 12, seed: shred.seed });
}

#[test]
fn admit_packet_leaves_a_dropped_packet_alone() {
    let shred = make_shred(12, 3);
    let reject_all = |_shred: &Shred, _buf: &[u8]| -> bool { false };
    let mut packet = to_packet(&shred);
    let before = packet.clone();
    assert_eq!(admit_packet(&mut packet, &decode, &reject_all), None);
    assert_eq!(packet, before);

    let mut noise = empty_packet();
    noise.meta.slot = 5;
    let before = noise.clone();
    assert_eq!(admit_packet(&mut noise, &decode, &accept_all), None);
    assert_eq!(noise, before);
}

#[test]
fn filter_is_not_asked_about_undecodable_packets() {
    let asked = AtomicUsize::new(0);
    let counting = |_shred: &Shred, _buf: &[u8]| -> bool {
        asked.fetch_add(1, Ordering::Relaxed);
        true
    };
    let mut noise = empty_packet();
    assert_eq!(admit_packet(&mut noise, &decode, &counting), None);
    assert_eq!(asked.load(Ordering::Relaxed), 0);
}

fn numbered(count: u8) -> Vec<Packet> {
    (0..count).map(|i| Packet::new(vec![i])).collect()
}

#[test]
fn retain_keeps_the_listed_packets_in_order() {
    let mut packets = numbered(6);
    retain_by_index(&mut packets, &vec![1, 2, 5]);
    let kept: Vec<u8> = packets.iter().map(|p| p.data[0]).collect();
    assert_eq!(kept, vec![1, 2, 5]);
}

#[test]
fn retain_with_no_positions_empties_the_batch() {
    let mut packets = numbered(4);
    retain_by_index(&mut packets, &Vec::new());
    assert!(packets.is_empty());
}

#[test]
fn retain_with_all_positions_keeps_the_batch() {
    let mut packets = numbered(4);
    retain_by_index(&mut packets, &vec![0, 1, 2, 3]);
    assert_eq!(packets, numbered(4));
}

#[test]
fn retain_on_an_empty_batch() {
    let mut packets: Vec<Packet> = Vec::new();
    retain_by_index(&mut packets, &vec![0, 3]);
    assert!(packets.is_empty());
}

#[test]
fn retain_with_a_single_position() {
    let mut packets = numbered(5);
    retain_by_index(&mut packets, &vec![2]);
    let kept: Vec<u8> = packets.iter().map(|p| p.data[0]).collect();
    assert_eq!(kept, vec![2]);
}

#[test]
fn retain_ignores_order_repeats_and_positions_past_the_end() {
    let mut packets = numbered(5);
    retain_by_index(&mut packets, &vec![4, 0, 4, 9, 2, usize::MAX]);
    let kept: Vec<u8> = packets.iter().map(|p| p.data[0]).collect();
    assert_eq!(kept, vec![0, 2, 4]);
}

#[test]
fn coalesce_appends_follow_on_batches_in_arrival_order() {
    let all = numbered(7);
    let first = Packets::new(all[0..2].to_vec());
    let follow_on = vec![
        Packets::new(all[2..3].to_vec()),
        Packets::new(Vec::new()),
        Packets::new(all[3..7].to_vec()),
    ];
    let batch = coalesce(first, follow_on);
    assert_eq!(batch.packets, all);
}

#[test]
fn coalesce_with_nothing_waiting_keeps_the_first_batch() {
    let first = Packets::new(numbered(3));
    let batch = coalesce(first.clone(), Vec::new());
    assert_eq!(batch, first);
    let batch = coalesce(Packets::new(Vec::new()), Vec::new());
    assert!(batch.is_empty());
    assert_eq!(batch.len(), 0);
}

#[test]
fn coalesced_batches_are_processed_as_one() {
    let pool = thread_pool(2).unwrap();
    let shreds = make_many_slot_shreds(0, 2, 3);
    let packets: Vec<Packet> = shreds.iter().map(to_packet).collect();
    let first = Packets::new(packets[0..1].to_vec());
    let follow_on = vec![Packets::new(vec![empty_packet()]), Packets::new(packets[1..].to_vec())];
    let out = ingest(&pool, coalesce(first, follow_on), &decode, &accept_all);
    assert_eq!(out.positions, vec![0, 2, 3, 4, 5, 6]);
    assert_eq!(out.shreds, shreds);
}

#[test]
fn new_packet_has_a_blank_side_band() {
    let packet = Packet::new(vec![1, 2, 3]);
    assert_eq!(packet.data, vec![1, 2, 3]);
    assert_eq!(packet.meta.slot, 0);
    assert_eq!(packet.meta.seed, [0u8; 32]);
}

#[test]
fn shred_accessors() {
    let mut shred = Shred::new(4, 9, [3u8; 64], [2u8; 32], vec![1]);
    assert_eq!(shred.slot(), 4);
    assert_eq!(shred.index(), 9);
    assert_eq!(shred.seed(), [2u8; 32]);
    shred.set_slot(96);
    assert_eq!(shred, Shred::new(96, 9, [3u8; 64], [2u8; 32], vec![1]));
}
