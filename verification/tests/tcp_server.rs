use cobs::{decode_in_place, encode};
use tmtc_core::cobs_parser::max_encoding_length;
use tmtc_core::tcp_server::{
    CobsTcParser, CobsTmSender, ConnectionResult, FrameBuffer, FrameWriter, ServerConfig,
    TcpConnectionState, TcpTcParser, TcpTmtcError, TcpTmtcInCobsServer, TmSendError,
};
use tmtc_core::tmtc::{BufferTooSmall, ReceivesTcCore, TcQueue, TmPacketSourceCore, TmQueue};

const SIMPLE_PACKET: [u8; 5] = [1, 2, 3, 4, 5];
const INVERTED_PACKET: [u8; 5] = [5, 4, 3, 4, 1];

fn encode_simple_packet(encoded_buf: &mut [u8], current_idx: &mut usize) {
    encoded_buf[*current_idx] = 0;
    *current_idx += 1;
    *current_idx += encode(&SIMPLE_PACKET, &mut encoded_buf[*current_idx..]);
    encoded_buf[*current_idx] = 0;
    *current_idx += 1;
}

fn test_server() -> TcpTmtcInCobsServer<TmQueue, TcQueue> {
    TcpTmtcInCobsServer::new(
        ServerConfig::new([127, 0, 0, 1], 0, 2, 1024, 1024),
        TmQueue::new(),
        TcQueue::new(),
    )
    .expect("TCP server generation failed")
}

/// Puts `bytes` into the read window of the connection, as a read would.
fn feed(
    server: &mut TcpTmtcInCobsServer<TmQueue, TcQueue>,
    conn: &mut TcpConnectionState,
    bytes: &[u8],
) {
    conn.read_window()[..bytes.len()].copy_from_slice(bytes);
    server.handle_read(conn, bytes.len()).unwrap();
}

#[test]
fn test_server_basic_no_tm_multi_tc() {}

#[test]
fn server_receives_tc_without_tm() {
    let mut server = test_server();
    let mut conn = server.start_connection();
    let mut encoded_buf: [u8; 16] = [0; 16];
    let mut current_idx = 0;
    encode_simple_packet(&mut encoded_buf, &mut current_idx);
    feed(&mut server, &mut conn, &encoded_buf[..current_idx]);
    let mut stream = FrameBuffer { bytes: Vec::new() };
    let tm_sent = server.send_pending_tm(&mut conn, &mut stream).unwrap();
    assert!(!tm_sent);
    assert!(!TcpConnectionState::is_done(current_idx, tm_sent));
    // The peer has closed: the next read brings nothing, and there is no telemetry.
    server.handle_read(&mut conn, 0).unwrap();
    let tm_sent = server.send_pending_tm(&mut conn, &mut stream).unwrap();
    assert!(TcpConnectionState::is_done(0, tm_sent));
    assert_eq!(conn.conn_result.num_received_tcs, 1);
    assert_eq!(conn.conn_result.num_sent_tms, 0);
    assert_eq!(server.tc_receiver.len(), 1);
    assert_eq!(server.tc_receiver.pop_front().unwrap(), &SIMPLE_PACKET);
    assert!(stream.bytes.is_empty());
}

#[test]
fn server_sends_tm_in_frames() {
    let mut server = test_server();
    server.tm_source.add_tm(&INVERTED_PACKET);
    assert_eq!(server.tm_source.len(), 1);
    let mut conn = server.start_connection();
    let mut encoded_buf: [u8; 16] = [0; 16];
    let mut current_idx = 0;
    encode_simple_packet(&mut encoded_buf, &mut current_idx);
    feed(&mut server, &mut conn, &encoded_buf[..current_idx]);
    let mut stream = FrameBuffer { bytes: Vec::new() };
    assert!(server.send_pending_tm(&mut conn, &mut stream).unwrap());
    assert!(!TcpConnectionState::is_done(0, true));
    assert!(!server.send_pending_tm(&mut conn, &mut stream).unwrap());
    assert_eq!(conn.conn_result, ConnectionResult { num_received_tcs: 1, num_sent_tms: 1 });
    let mut read_buf = stream.bytes.clone();
    let read_len = read_buf.len();
    // 1 byte encoding overhead, 2 sentinel bytes.
    assert_eq!(read_len, 8);
    assert_eq!(read_buf[0], 0);
    assert_eq!(read_buf[read_len - 1], 0);
    let decoded_len = decode_in_place(&mut read_buf[1..read_len]).expect("COBS decoding failed");
    assert_eq!(decoded_len, 5);
    // Skip first sentinel byte.
    assert_eq!(&read_buf[1..1 + INVERTED_PACKET.len()], &INVERTED_PACKET);
    assert_eq!(server.tc_receiver.pop_front().unwrap(), &SIMPLE_PACKET);
}

#[test]
fn server_keeps_split_frame_between_reads() {
    let mut server = test_server();
    let mut conn = server.start_connection();
    let mut encoded_buf: [u8; 32] = [0; 32];
    let mut current_idx = 0;
    encode_simple_packet(&mut encoded_buf, &mut current_idx);
    let second_start = current_idx;
    encoded_buf[current_idx] = 0;
    current_idx += 1;
    current_idx += encode(&INVERTED_PACKET, &mut encoded_buf[current_idx..]);
    encoded_buf[current_idx] = 0;
    current_idx += 1;
    // The first read ends three bytes before the end of the second frame.
    let cut = current_idx - 3;
    feed(&mut server, &mut conn, &encoded_buf[..cut]);
    assert_eq!(server.tc_receiver.len(), 1);
    assert_eq!(conn.read_window().len(), 1024 - (cut - second_start));
    feed(&mut server, &mut conn, &encoded_buf[cut..current_idx]);
    assert_eq!(server.tc_receiver.len(), 2);
    assert_eq!(server.tc_receiver.get(1).unwrap().as_slice(), &INVERTED_PACKET);
    assert_eq!(conn.conn_result.num_received_tcs, 2);
    assert_eq!(conn.read_window().len(), 1024);
}

#[test]
fn cobs_round_trip_through_sender_and_parser() {
    // What the sender frames, the parser hands out again, also with zeroes in the packet.
    let packets: [&[u8]; 4] = [&[0], &[1, 0, 2, 0, 0, 3], &[0xFF; 300], &[7]];
    let mut sender = CobsTmSender::new(512);
    let mut source = TmQueue::new();
    for p in packets {
        source.add_tm(p);
    }
    source.add_tm(&[]);
    assert_eq!(source.len(), 4);
    let mut tm_buffer = [0u8; 512];
    let mut result = ConnectionResult::new();
    let mut stream = FrameBuffer { bytes: Vec::new() };
    let sent: Result<bool, TmSendError<BufferTooSmall>> =
        sender.handle_tm_sending(&mut tm_buffer, &mut source, &mut result, &mut stream);
    assert!(sent.unwrap());
    assert_eq!(result.num_sent_tms, 4);
    let mut received = TcQueue::new();
    let mut parser = CobsTcParser::default();
    let mut next_write_idx = 0;
    let len = stream.bytes.len();
    TcpTcParser::<TcQueue>::handle_tc_parsing(
        &mut parser,
        &mut stream.bytes,
        &mut received,
        &mut result,
        len,
        &mut next_write_idx,
    )
    .unwrap();
    assert_eq!(result.num_received_tcs, 4);
    assert_eq!(next_write_idx, 0);
    for (k, p) in packets.iter().enumerate() {
        assert_eq!(received.get(k).unwrap().as_slice(), *p);
    }
}

#[test]
fn tm_sender_errors() {
    let mut sender = CobsTmSender::new(4);
    assert_eq!(max_encoding_length(4), 5);
    assert_eq!(max_encoding_length(0), 1);
    assert_eq!(max_encoding_length(254), 255);
    assert_eq!(max_encoding_length(255), 257);
    assert_eq!(sender.encode_frame(&[9, 0, 9, 9]), Some(7));
    assert_eq!(sender.encode_frame(&[1; 6]), None);
    // Five bytes could be encoded in six, but not every packet of five bytes can.
    assert_eq!(sender.encode_frame(&[0; 5]), None);
    let mut smallest = CobsTmSender::new(0);
    assert_eq!(smallest.encode_frame(&[]), Some(3));
    assert_eq!(smallest.encode_frame(&[7]), None);
    let mut source = TmQueue::new();
    source.add_tm(&[1, 2]);
    source.add_tm(&[1, 2, 3, 4, 5, 6, 7, 8]);
    let mut tm_buffer = [0u8; 8];
    let mut result = ConnectionResult::new();
    let mut stream = FrameBuffer { bytes: Vec::new() };
    let sent = sender.handle_tm_sending(&mut tm_buffer, &mut source, &mut result, &mut stream);
    assert!(matches!(sent, Err(TmSendError::EncodingBufferTooSmall)));
    assert_eq!(stream.bytes, vec![0, 3, 1, 2, 0]);
    assert_eq!(result.num_sent_tms, 1);
    // A packet that does not fit the buffer of the caller stays in the source.
    source.add_tm(&[1; 9]);
    let sent = sender.handle_tm_sending(&mut tm_buffer, &mut source, &mut result, &mut stream);
    assert!(matches!(
        sent,
        Err(TmSendError::Source(BufferTooSmall { needed: 9, found: 8 }))
    ));
    assert_eq!(source.len(), 1);
    let mut small = [0u8; 2];
    assert_eq!(source.retrieve_packet(&mut small), Err(BufferTooSmall { needed: 9, found: 2 }));
}

struct FailingStream;

impl FrameWriter for FailingStream {
    fn write_all(&mut self, _buf: &[u8]) -> bool {
        false
    }
}

struct RefusingReceiver;

impl ReceivesTcCore for RefusingReceiver {
    type Error = u8;

    fn pass_tc(&mut self, _tc_raw: &[u8]) -> Result<(), u8> {
        Err(3)
    }
}

#[test]
fn server_passes_errors_on() {
    let mut server = test_server();
    server.tm_source.add_tm(&SIMPLE_PACKET);
    let mut conn = server.start_connection();
    assert!(matches!(
        server.send_pending_tm(&mut conn, &mut FailingStream),
        Err(TcpTmtcError::Io)
    ));
    let mut server = TcpTmtcInCobsServer::new(
        ServerConfig::new([127, 0, 0, 1], 0, 2, 16, 16),
        TmQueue::new(),
        RefusingReceiver,
    )
    .unwrap();
    let mut conn = server.start_connection();
    let mut encoded_buf: [u8; 16] = [0; 16];
    let mut current_idx = 0;
    encode_simple_packet(&mut encoded_buf, &mut current_idx);
    conn.read_window()[..current_idx].copy_from_slice(&encoded_buf[..current_idx]);
    assert!(matches!(server.handle_read(&mut conn, current_idx), Err(TcpTmtcError::TcError(3))));
    assert_eq!(conn.conn_result.num_received_tcs, 0);
    assert!(TcpTmtcInCobsServer::new(
        ServerConfig::new([0; 4], 0, 0, usize::MAX, 16),
        TmQueue::new(),
        RefusingReceiver,
    )
    .is_none());
}
