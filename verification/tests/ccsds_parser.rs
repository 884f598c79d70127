use tmtc_core::ccsds_parser::{
    parse_buffer_for_ccsds_space_packets, PacketIdHashSet, PacketIdLookup, PacketIdSet,
};
use tmtc_core::spacepackets::{PacketId, PacketType};
use tmtc_core::tmtc::{ReceivesTcCore, TcQueue};

const TEST_PACKET_ID: u16 = 0x1802;

/// A packet with the given packet id and `data_len` bytes behind the header.
fn packet(id: u16, seq: u8, data_len: usize) -> Vec<u8> {
    let mut p = vec![(id >> 8) as u8, id as u8, 0xC0, seq];
    p.extend_from_slice(&((data_len - 1) as u16).to_be_bytes());
    p.extend((0..data_len).map(|k| k as u8 + 1));
    p
}

fn lookup() -> Vec<u16> {
    vec![0x1801, TEST_PACKET_ID]
}

#[test]
fn ccsds_two_packets() {
    let first = packet(TEST_PACKET_ID, 1, 4);
    let second = packet(0x1801, 2, 9);
    let mut buf = [first.clone(), second.clone()].concat();
    let mut queue = TcQueue::new();
    let mut next_write_idx = 77;
    let n = parse_buffer_for_ccsds_space_packets(&mut buf, &lookup(), &mut queue, &mut next_write_idx)
        .unwrap();
    assert_eq!(n, 2);
    assert_eq!(queue.get(0).unwrap(), &first);
    assert_eq!(queue.get(1).unwrap(), &second);
    assert_eq!(next_write_idx, 77);
}

#[test]
fn ccsds_tail_is_moved_to_front() {
    let first = packet(TEST_PACKET_ID, 1, 4);
    let second = packet(TEST_PACKET_ID, 2, 20);
    let partial = &second[..11];
    let mut buf = [first.as_slice(), partial].concat();
    let mut queue = TcQueue::new();
    let mut next_write_idx = 0;
    let n = parse_buffer_for_ccsds_space_packets(&mut buf, &lookup(), &mut queue, &mut next_write_idx)
        .unwrap();
    assert_eq!(n, 1);
    assert_eq!(queue.get(0).unwrap(), &first);
    assert_eq!(next_write_idx, 11);
    assert_eq!(&buf[..11], partial);
    // Once the rest has arrived behind what was kept, the packet is found.
    let mut again = [partial, &second[11..]].concat();
    let n = parse_buffer_for_ccsds_space_packets(&mut again, &lookup(), &mut queue, &mut next_write_idx)
        .unwrap();
    assert_eq!(n, 1);
    assert_eq!(queue.get(1).unwrap(), &second);
}

#[test]
fn ccsds_tail_at_front_is_kept() {
    let second = packet(TEST_PACKET_ID, 2, 20);
    let mut buf = second[..11].to_vec();
    let before = buf.clone();
    let mut queue = TcQueue::new();
    let mut next_write_idx = 5;
    let n = parse_buffer_for_ccsds_space_packets(&mut buf, &lookup(), &mut queue, &mut next_write_idx)
        .unwrap();
    assert_eq!(n, 0);
    // The start of the packet stays where it is, and the next read goes on behind it.
    assert_eq!(next_write_idx, 11);
    assert_eq!(buf, before);
}

#[test]
fn ccsds_skips_what_is_not_accepted() {
    let wanted = packet(TEST_PACKET_ID, 1, 3);
    let mut buf = [&[0xAA, 0xBB, 0xCC][..], &wanted, &[0xDD]].concat();
    let mut queue = TcQueue::new();
    let mut next_write_idx = 0;
    let n = parse_buffer_for_ccsds_space_packets(&mut buf, &lookup(), &mut queue, &mut next_write_idx)
        .unwrap();
    assert_eq!(n, 1);
    assert_eq!(queue.get(0).unwrap(), &wanted);
    assert_eq!(next_write_idx, 0);
    // The shortest packet has seven bytes, and is found where it fills the buffer.
    let mut short = packet(TEST_PACKET_ID, 1, 1);
    assert_eq!(short.len(), 7);
    assert_eq!(
        parse_buffer_for_ccsds_space_packets(&mut short, &lookup(), &mut queue, &mut next_write_idx),
        Ok(1)
    );
    assert_eq!(queue.get(1).unwrap(), &short);
    assert_eq!(next_write_idx, 0);
}

#[test]
fn ccsds_short_tails_are_kept() {
    let first = packet(TEST_PACKET_ID, 1, 4);
    let second = packet(0x1801, 2, 9);
    // The start of a packet is kept from its packet id on, also before its length is there.
    for kept in 2..second.len() {
        let mut buf = [first.as_slice(), &second[..kept]].concat();
        let mut queue = TcQueue::new();
        let mut next_write_idx = 0;
        assert_eq!(
            parse_buffer_for_ccsds_space_packets(&mut buf, &lookup(), &mut queue, &mut next_write_idx),
            Ok(1)
        );
        assert_eq!(next_write_idx, kept);
        assert_eq!(&buf[..kept], &second[..kept]);
        // With the rest behind it the packet is found.
        let mut again = second.clone();
        again[..kept].copy_from_slice(&buf[..kept]);
        assert_eq!(
            parse_buffer_for_ccsds_space_packets(&mut again, &lookup(), &mut queue, &mut next_write_idx),
            Ok(1)
        );
        assert_eq!(queue.get(1).unwrap(), &second);
    }
    // One byte is no packet id.
    let mut buf = [first.as_slice(), &second[..1]].concat();
    let mut queue = TcQueue::new();
    let mut next_write_idx = 3;
    assert_eq!(
        parse_buffer_for_ccsds_space_packets(&mut buf, &lookup(), &mut queue, &mut next_write_idx),
        Ok(1)
    );
    assert_eq!(next_write_idx, 3);
}

struct Refuser(usize);

impl ReceivesTcCore for Refuser {
    type Error = &'static str;

    fn pass_tc(&mut self, _tc_raw: &[u8]) -> Result<(), Self::Error> {
        if self.0 == 0 {
            return Err("full");
        }
        self.0 -= 1;
        Ok(())
    }
}

#[test]
fn ccsds_receiver_error() {
    let p = packet(TEST_PACKET_ID, 1, 4);
    let mut buf = [p.clone(), p.clone(), p, vec![0u8; 8]].concat();
    let before = buf.clone();
    let mut receiver = Refuser(1);
    let mut next_write_idx = 0;
    assert_eq!(
        parse_buffer_for_ccsds_space_packets(&mut buf, &lookup(), &mut receiver, &mut next_write_idx),
        Err("full")
    );
    assert_eq!(receiver.0, 0);
    assert_eq!(buf, before);
}

#[test]
fn packet_id_lookups() {
    assert!(lookup().validate(TEST_PACKET_ID));
    assert!(!lookup().validate(0x1803));
    let mut set = PacketIdSet::new();
    assert!(!set.validate(TEST_PACKET_ID));
    assert!(set.insert(TEST_PACKET_ID));
    assert!(!set.insert(TEST_PACKET_ID));
    assert!(set.validate(TEST_PACKET_ID));
    assert!(!set.validate(0x1801));
    let ids = vec![PacketId::new(PacketType::Tc, true, 2).unwrap()];
    assert!(ids.validate(TEST_PACKET_ID));
    // The version bits are no part of the packet id.
    assert!(ids.validate(TEST_PACKET_ID | 0xE000));
    assert!(!ids.validate(0x0802));
    let mut queue = TcQueue::new();
    let mut buf = packet(TEST_PACKET_ID, 1, 4);
    let mut next_write_idx = 0;
    assert_eq!(
        parse_buffer_for_ccsds_space_packets(&mut buf, &set, &mut queue, &mut next_write_idx),
        Ok(1)
    );
    assert_eq!(
        parse_buffer_for_ccsds_space_packets(&mut buf, &ids, &mut queue, &mut next_write_idx),
        Ok(1)
    );
    // Slices, and a hash set of packet identifications.
    let raw_ids: &[u16] = &[0x1801, TEST_PACKET_ID];
    assert!(raw_ids.validate(TEST_PACKET_ID));
    assert!(!raw_ids.validate(0x1803));
    let id_slice: &[PacketId] = ids.as_slice();
    assert!(id_slice.validate(TEST_PACKET_ID | 0x2000));
    assert!(!id_slice.validate(0x1801));
    let mut id_set = PacketIdHashSet::new();
    assert!(!id_set.validate(TEST_PACKET_ID));
    assert!(id_set.insert(PacketId::new(PacketType::Tc, true, 2).unwrap()));
    assert!(!id_set.insert(PacketId::new(PacketType::Tc, true, 2).unwrap()));
    assert!(id_set.validate(TEST_PACKET_ID));
    assert!(id_set.validate(TEST_PACKET_ID | 0x4000));
    assert!(!id_set.validate(0x0802));
    for (k, found) in [
        parse_buffer_for_ccsds_space_packets(&mut buf, &raw_ids, &mut queue, &mut next_write_idx),
        parse_buffer_for_ccsds_space_packets(&mut buf, &id_slice, &mut queue, &mut next_write_idx),
        parse_buffer_for_ccsds_space_packets(&mut buf, &id_set, &mut queue, &mut next_write_idx),
    ]
    .into_iter()
    .enumerate()
    {
        assert_eq!(found, Ok(1), "lookup {k}");
    }
}
