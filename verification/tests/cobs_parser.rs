use cobs::encode;
use std::collections::VecDeque;
use tmtc_core::cobs_parser::parse_buffer_for_cobs_encoded_packets;
use tmtc_core::tmtc::{ReceivesTcCore, TcQueue};

const SIMPLE_PACKET: [u8; 5] = [1, 2, 3, 4, 5];
const INVERTED_PACKET: [u8; 5] = [5, 4, 3, 4, 1];

#[derive(Default)]
struct TcCacher {
    tc_queue: VecDeque<Vec<u8>>,
}

impl ReceivesTcCore for TcCacher {
    type Error = ();

    fn pass_tc(&mut self, tc_raw: &[u8]) -> Result<(), Self::Error> {
        self.tc_queue.push_back(tc_raw.to_vec());
        Ok(())
    }
}

struct RefusingReceiver {
    taken: usize,
    limit: usize,
}

impl ReceivesTcCore for RefusingReceiver {
    type Error = u8;

    fn pass_tc(&mut self, _tc_raw: &[u8]) -> Result<(), Self::Error> {
        if self.taken >= self.limit {
            return Err(7);
        }
        self.taken += 1;
        Ok(())
    }
}

fn encode_simple_packet(encoded_buf: &mut [u8], current_idx: &mut usize) {
    encoded_buf[*current_idx] = 0;
    *current_idx += 1;
    *current_idx += encode(&SIMPLE_PACKET, &mut encoded_buf[*current_idx..]);
    encoded_buf[*current_idx] = 0;
    *current_idx += 1;
}

#[test]
fn test_parsing_simple_packet() {
    let mut test_sender = TcCacher::default();
    let mut encoded_buf: [u8; 16] = [0; 16];
    let mut current_idx = 0;
    encode_simple_packet(&mut encoded_buf, &mut current_idx);
    let mut next_read_idx = 0;
    let packets = parse_buffer_for_cobs_encoded_packets(
        &mut encoded_buf[0..current_idx],
        &mut test_sender,
        &mut next_read_idx,
    )
    .unwrap();
    assert_eq!(packets, 1);
    assert_eq!(test_sender.tc_queue.len(), 1);
    let packet = &test_sender.tc_queue[0];
    assert_eq!(packet, &SIMPLE_PACKET);
}

#[test]
fn test_parsing_consecutive_packets() {
    let mut test_sender = TcCacher::default();
    let mut encoded_buf: [u8; 16] = [0; 16];
    let mut current_idx = 0;
    encode_simple_packet(&mut encoded_buf, &mut current_idx);

    // Second packet
    encoded_buf[current_idx] = 0;
    current_idx += 1;
    current_idx += encode(&INVERTED_PACKET, &mut encoded_buf[current_idx..]);
    encoded_buf[current_idx] = 0;
    current_idx += 1;
    let mut next_read_idx = 0;
    let packets = parse_buffer_for_cobs_encoded_packets(
        &mut encoded_buf[0..current_idx],
        &mut test_sender,
        &mut next_read_idx,
    )
    .unwrap();
    assert_eq!(packets, 2);
    assert_eq!(test_sender.tc_queue.len(), 2);
    let packet0 = &test_sender.tc_queue[0];
    assert_eq!(packet0, &SIMPLE_PACKET);
    let packet1 = &test_sender.tc_queue[1];
    assert_eq!(packet1, &INVERTED_PACKET);
}

#[test]
fn test_split_tail_packet_only() {
    let mut test_sender = TcCacher::default();
    let mut encoded_buf: [u8; 16] = [0; 16];
    let mut current_idx = 0;
    encode_simple_packet(&mut encoded_buf, &mut current_idx);
    let mut next_read_idx = 0;
    let packets = parse_buffer_for_cobs_encoded_packets(
        // Cut off the sentinel byte at the end.
        &mut encoded_buf[0..current_idx - 1],
        &mut test_sender,
        &mut next_read_idx,
    )
    .unwrap();
    assert_eq!(packets, 0);
    assert_eq!(test_sender.tc_queue.len(), 0);
    // The open frame stays at the front, and the next read goes on behind it.
    assert_eq!(next_read_idx, 7);
    assert_eq!(encoded_buf[..7], [0, 6, 1, 2, 3, 4, 5]);
}

fn generic_test_split_packet(cut_off: usize) {
    let mut test_sender = TcCacher::default();
    let mut encoded_buf: [u8; 16] = [0; 16];
    assert!(cut_off < INVERTED_PACKET.len() + 1);
    let mut current_idx = 0;
    encode_simple_packet(&mut encoded_buf, &mut current_idx);
    // Second packet
    encoded_buf[current_idx] = 0;
    let packet_start = current_idx;
    current_idx += 1;
    let encoded_len = encode(&INVERTED_PACKET, &mut encoded_buf[current_idx..]);
    assert_eq!(encoded_len, 6);
    current_idx += encoded_len;
    // The sentinel byte is cut off, so the write index is expected to be the length of the
    // packet minus the sentinel byte plus the first sentinel byte.
    let next_expected_write_idx = 1 + encoded_len - cut_off + 1;
    encoded_buf[current_idx] = 0;
    current_idx += 1;
    let mut next_write_idx = 0;
    let expected_at_start = encoded_buf[packet_start..current_idx - cut_off].to_vec();
    let packets = parse_buffer_for_cobs_encoded_packets(
        // Cut off the sentinel byte at the end.
        &mut encoded_buf[0..current_idx - cut_off],
        &mut test_sender,
        &mut next_write_idx,
    )
    .unwrap();
    assert_eq!(packets, 1);
    assert_eq!(test_sender.tc_queue.len(), 1);
    assert_eq!(&test_sender.tc_queue[0], &SIMPLE_PACKET);
    assert_eq!(next_write_idx, next_expected_write_idx);
    assert_eq!(encoded_buf[..next_expected_write_idx], expected_at_start);
}

#[test]
fn test_one_packet_and_split_tail_packet_0() {
    generic_test_split_packet(1);
}

#[test]
fn test_one_packet_and_split_tail_packet_1() {
    generic_test_split_packet(2);
}

#[test]
fn test_one_packet_and_split_tail_packet_2() {
    generic_test_split_packet(3);
}

#[test]
fn test_zero_at_end() {
    let mut test_sender = TcCacher::default();
    let mut encoded_buf: [u8; 16] = [0; 16];
    let mut next_write_idx = 0;
    let mut current_idx = 0;
    encoded_buf[current_idx] = 5;
    current_idx += 1;
    encode_simple_packet(&mut encoded_buf, &mut current_idx);
    encoded_buf[current_idx] = 0;
    current_idx += 1;
    let packets = parse_buffer_for_cobs_encoded_packets(
        // Cut off the sentinel byte at the end.
        &mut encoded_buf[0..current_idx],
        &mut test_sender,
        &mut next_write_idx,
    )
    .unwrap();
    assert_eq!(packets, 1);
    assert_eq!(test_sender.tc_queue.len(), 1);
    assert_eq!(&test_sender.tc_queue[0], &SIMPLE_PACKET);
    assert_eq!(next_write_idx, 1);
    assert_eq!(encoded_buf[0], 0);
}

#[test]
fn test_all_zeroes() {
    let mut test_sender = TcCacher::default();
    let mut all_zeroes: [u8; 5] = [0; 5];
    let mut next_write_idx = 0;
    let packets = parse_buffer_for_cobs_encoded_packets(
        // Cut off the sentinel byte at the end.
        &mut all_zeroes,
        &mut test_sender,
        &mut next_write_idx,
    )
    .unwrap();
    assert_eq!(packets, 0);
    assert!(test_sender.tc_queue.is_empty());
    // The last zero may open a frame: it is kept for the next read.
    assert_eq!(next_write_idx, 1);
    assert_eq!(all_zeroes[0], 0);
}

#[test]
fn cobs_packets_reach_the_library_queue() {
    let mut queue = TcQueue::new();
    let mut encoded_buf: [u8; 16] = [0; 16];
    let mut current_idx = 0;
    encode_simple_packet(&mut encoded_buf, &mut current_idx);
    let mut next_write_idx = 0;
    let packets = parse_buffer_for_cobs_encoded_packets(
        &mut encoded_buf[0..current_idx],
        &mut queue,
        &mut next_write_idx,
    )
    .unwrap();
    assert_eq!(packets, 1);
    assert_eq!(queue.len(), 1);
    assert_eq!(queue.get(0).unwrap().as_slice(), &SIMPLE_PACKET);
    assert!(queue.get(1).is_none());
    assert_eq!(queue.pop_front().unwrap(), SIMPLE_PACKET.to_vec());
    assert!(queue.pop_front().is_none());
}

#[test]
fn cobs_frame_that_does_not_decode_is_skipped() {
    let mut test_sender = TcCacher::default();
    // The code byte 9 points behind the end of the frame.
    let mut buf: [u8; 9] = [0, 9, 1, 2, 0, 0, 2, 7, 0];
    let mut next_write_idx = 0;
    let packets =
        parse_buffer_for_cobs_encoded_packets(&mut buf, &mut test_sender, &mut next_write_idx)
            .unwrap();
    assert_eq!(packets, 1);
    assert_eq!(test_sender.tc_queue.len(), 1);
    assert_eq!(test_sender.tc_queue[0], vec![7]);
    assert_eq!(next_write_idx, 0);
}

#[test]
fn cobs_receiver_error_stops_the_parser() {
    let mut receiver = RefusingReceiver { taken: 0, limit: 1 };
    let mut encoded_buf: [u8; 32] = [0; 32];
    let mut current_idx = 0;
    encode_simple_packet(&mut encoded_buf, &mut current_idx);
    encode_simple_packet(&mut encoded_buf, &mut current_idx);
    encode_simple_packet(&mut encoded_buf, &mut current_idx);
    let mut next_write_idx = 0;
    let res = parse_buffer_for_cobs_encoded_packets(
        &mut encoded_buf[0..current_idx],
        &mut receiver,
        &mut next_write_idx,
    );
    assert_eq!(res, Err(7));
    assert_eq!(receiver.taken, 1);
    assert_eq!(next_write_idx, 0);
}
