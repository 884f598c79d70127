//! The logic of the TCP server for telemetry and telecommands that frames
//! packets with COBS.
//!
//! The server reads telecommands from a connection into a buffer, parses the
//! buffer for frames and hands the packets to a receiver. It takes telemetry
//! from a source, frames it and writes it to the connection. Reading and
//! writing are done by the caller; what is here says what to do with the
//! bytes that were read, which bytes to write, and when a connection is done.
use crate::cobs_parser::{
    encode_frame_body, max_encoding_length, parse_buffer_for_cobs_encoded_packets,
};
use crate::tmtc::{ReceivesTcCore, TmPacketSourceCore};
use vstd::prelude::*;

verus! {

/// What a server is made from.
#[derive(Debug, Copy, Clone, PartialEq, Eq)]
pub struct ServerConfig {
    /// The address to listen at, as the four bytes of an IPv4 address and a port.
    pub ip: [u8; 4],
    pub port: u16,
    /// How long a read waits for bytes, in milliseconds.
    pub inner_loop_delay_millis: u64,
    pub tm_buffer_size: usize,
    pub tc_buffer_size: usize,
}

impl ServerConfig {
    pub fn new(
        ip: [u8; 4],
        port: u16,
        inner_loop_delay_millis: u64,
        tm_buffer_size: usize,
        tc_buffer_size: usize,
    ) -> (r: Self)
        ensures
            r == (ServerConfig { ip, port, inner_loop_delay_millis, tm_buffer_size, tc_buffer_size }),
    {
        Self { ip, port, inner_loop_delay_millis, tm_buffer_size, tc_buffer_size }
    }
}

/// What a connection came to.
#[derive(Debug, Copy, Clone, PartialEq, Eq, Structural)]
pub struct ConnectionResult {
    pub num_received_tcs: u32,
    pub num_sent_tms: u32,
}

impl ConnectionResult {
    pub fn new() -> (r: Self)
        ensures
            r == (ConnectionResult { num_received_tcs: 0, num_sent_tms: 0 }),
    {
        Self { num_received_tcs: 0, num_sent_tms: 0 }
    }
}

/// What can go wrong on a connection.
#[derive(Debug)]
pub enum TcpTmtcError<TmError, TcError> {
    /// The telemetry source failed.
    TmError(TmError),
    /// The telecommand receiver failed.
    TcError(TcError),
    /// The buffer for telemetry frames is too small for a packet.
    EncodingBufferTooSmall,
    /// Reading from or writing to the connection failed.
    Io,
}

/// The sum of two counts, or the largest `u32` where the sum is larger.
pub open spec fn sat_add_u32(a: u32, b: u32) -> u32 {
    if a + b <= u32::MAX {
        (a + b) as u32
    } else {
        u32::MAX
    }
}

/// Finds the telecommands in what was read.
pub trait TcpTcParser<R: ReceivesTcCore> {
    /// What a call of [`Self::handle_tc_parsing`] leaves behind and returns:
    /// what it makes of the buffer, of the receiver, of the counts of the
    /// connection and of the index for the next write.
    open spec fn parsed(
        buf_before: Seq<u8>,
        buf_after: Seq<u8>,
        receiver_before: &R,
        receiver_after: &R,
        result_before: ConnectionResult,
        result_after: ConnectionResult,
        current_write_idx: usize,
        next_before: usize,
        next_after: usize,
        r: Result<(), R::Error>,
    ) -> bool {
        true
    }

    /// Parses the first `current_write_idx` bytes of `tc_buffer` and hands
    /// the packets to `tc_receiver`, see [`Self::parsed`].
    fn handle_tc_parsing(
        &mut self,
        tc_buffer: &mut [u8],
        tc_receiver: &mut R,
        conn_result: &mut ConnectionResult,
        current_write_idx: usize,
        next_write_idx: &mut usize,
    ) -> (r: Result<(), R::Error>)
        requires
            current_write_idx <= old(tc_buffer)@.len(),
            current_write_idx <= u32::MAX,
        ensures
            final(tc_buffer)@.len() == old(tc_buffer)@.len(),
            *final(next_write_idx) <= current_write_idx || *final(next_write_idx) == *old(next_write_idx),
            Self::parsed(
                old(tc_buffer)@,
                final(tc_buffer)@,
                old(tc_receiver),
                final(tc_receiver),
                *old(conn_result),
                *final(conn_result),
                current_write_idx,
                *old(next_write_idx),
                *final(next_write_idx),
                r,
            ),
    ;
}

/// The parser for telecommands in COBS frames.
pub struct CobsTcParser {}

impl CobsTcParser {
    pub fn new() -> Self {
        CobsTcParser {  }
    }
}

impl Default for CobsTcParser {
    fn default() -> Self {
        CobsTcParser {  }
    }
}

impl<R: ReceivesTcCore> TcpTcParser<R> for CobsTcParser {
    /// The packets of the frames in what was read go to the receiver and are
    /// counted, and a frame that is cut off at the end is kept at the front
    /// of the buffer, see [`parse_buffer_for_cobs_encoded_packets`]. Where
    /// the receiver refuses a packet, the packets before it have gone to the
    /// receiver, and the counts and the index stay.
    open spec fn parsed(
        buf_before: Seq<u8>,
        buf_after: Seq<u8>,
        receiver_before: &R,
        receiver_after: &R,
        result_before: ConnectionResult,
        result_after: ConnectionResult,
        current_write_idx: usize,
        next_before: usize,
        next_after: usize,
        r: Result<(), R::Error>,
    ) -> bool {
        let read = buf_before.subrange(0, current_write_idx as int);
        let st = crate::cobs_parser::scan_to(read, current_write_idx as int);
        let packets = crate::cobs_parser::decoded_frames(read, st.frames);
        if r.is_ok() {
            &&& receiver_after.received() == receiver_before.received() + packets
            &&& result_after.num_sent_tms == result_before.num_sent_tms
            &&& result_after.num_received_tcs == sat_add_u32(
                result_before.num_received_tcs,
                packets.len() as u32,
            )
            &&& if st.start_found {
                &&& next_after == current_write_idx - st.start + 1
                &&& buf_after.subrange(0, current_write_idx - st.start + 1) == read.subrange(
                    st.start - 1,
                    current_write_idx as int,
                )
            } else {
                next_after == next_before
            }
        } else {
            &&& result_after == result_before
            &&& next_after == next_before
            &&& exists|k: int|
                0 <= k < packets.len() && receiver_after.received() == receiver_before.received()
                    + #[trigger] packets.subrange(0, k)
        }
    }

    fn handle_tc_parsing(
        &mut self,
        tc_buffer: &mut [u8],
        tc_receiver: &mut R,
        conn_result: &mut ConnectionResult,
        current_write_idx: usize,
        next_write_idx: &mut usize,
    ) -> (r: Result<(), R::Error>)
    {
        let (head, _tail) = tc_buffer.split_at_mut(current_write_idx);
        let parsed = parse_buffer_for_cobs_encoded_packets(head, tc_receiver, next_write_idx);
        let r = match parsed {
            Ok(n) => {
                conn_result.num_received_tcs = if n > u32::MAX - conn_result.num_received_tcs {
                    u32::MAX
                } else {
                    conn_result.num_received_tcs + n
                };
                proof {
                    crate::cobs_parser::lemma_scan_bounds(
                        old(tc_buffer)@.subrange(0, current_write_idx as int),
                        current_write_idx as int,
                    );
                }
                Ok(())
            },
            Err(e) => Err(e),
        };
        proof {
            let read = old(tc_buffer)@.subrange(0, current_write_idx as int);
            let st = crate::cobs_parser::scan_to(read, current_write_idx as int);
            let packets = crate::cobs_parser::decoded_frames(read, st.frames);
            if r.is_ok() {
                assert(tc_receiver.received() == old(tc_receiver).received() + packets);
                assert(conn_result.num_received_tcs == sat_add_u32(
                    old(conn_result).num_received_tcs,
                    packets.len() as u32,
                ));
                if st.start_found {
                    assert(*next_write_idx == current_write_idx - st.start + 1);
                    assert(tc_buffer@.subrange(0, current_write_idx - st.start + 1) == read.subrange(
                        st.start - 1,
                        current_write_idx as int,
                    ));
                } else {
                    assert(*next_write_idx == *old(next_write_idx));
                }
            } else {
                assert(exists|k: int|
                    0 <= k < packets.len() && tc_receiver.received() == old(tc_receiver).received()
                        + #[trigger] packets.subrange(0, k));
            }
        }
        r
    }
}


/// Where the bytes of the frames go: the connection.
///
/// `written` is all that was written with success, in order.
pub trait FrameWriter {
    open spec fn written(&self) -> Seq<u8> {
        arbitrary()
    }

    /// Writes all of `buf`. After an error nothing counts as written.
    fn write_all(&mut self, buf: &[u8]) -> (r: bool)
        ensures
            final(self).written() == (if r {
                old(self).written() + buf@
            } else {
                old(self).written()
            }),
    ;
}

/// A frame writer that keeps the bytes in memory.
pub struct FrameBuffer {
    pub bytes: Vec<u8>,
}

impl FrameWriter for FrameBuffer {
    open spec fn written(&self) -> Seq<u8> {
        self.bytes@
    }

    fn write_all(&mut self, buf: &[u8]) -> (r: bool)
        ensures
            r,
    {
        let mut k: usize = 0;
        while k < buf.len()
            invariant
                k <= buf@.len(),
                self.bytes@ == old(self).bytes@ + buf@.subrange(0, k as int),
            decreases buf@.len() - k,
        {
            self.bytes.push(buf[k]);
            assert(self.bytes@ =~= old(self).bytes@ + buf@.subrange(0, k as int + 1));
            k += 1;
        }
        assert(buf@.subrange(0, buf@.len() as int) =~= buf@);
        true
    }
}

/// The frame of a packet: the encoded packet between two sentinels.
pub open spec fn cobs_frame(packet: Seq<u8>) -> Seq<u8> {
    seq![0u8] + crate::cobs_parser::cobs_encoded(packet) + seq![0u8]
}

/// The frames of the packets, one behind the other.
pub open spec fn cobs_frames(packets: Seq<Seq<u8>>) -> Seq<u8>
    decreases packets.len(),
{
    if packets.len() == 0 {
        Seq::empty()
    } else {
        cobs_frames(packets.drop_last()) + cobs_frame(packets.last())
    }
}

/// Why telemetry could not be sent.
#[derive(Debug)]
pub enum TmSendError<E> {
    /// The telemetry source failed.
    Source(E),
    /// A packet does not fit the buffer for frames.
    EncodingBufferTooSmall,
    /// The connection did not take the bytes.
    Io,
}

/// Sends the telemetry of a source over the connection.
pub struct CobsTmSender {
    tm_encoding_buffer: Vec<u8>,
}

impl CobsTmSender {
    /// The size of the buffer for frames.
    pub closed spec fn buffer_len(&self) -> nat {
        self.tm_encoding_buffer@.len()
    }

    /// The buffer for frames.
    pub closed spec fn buffer(&self) -> Seq<u8> {
        self.tm_encoding_buffer@
    }

    /// A sender for packets of up to `tm_buffer_size` bytes: its buffer takes
    /// the longest encoding of such a packet and the two sentinels.
    pub fn new(tm_buffer_size: usize) -> (r: Self)
        requires
            crate::cobs_parser::max_encoding_length_spec(tm_buffer_size as nat) + 2 <= usize::MAX,
        ensures
            r.buffer_len() == crate::cobs_parser::max_encoding_length_spec(tm_buffer_size as nat) + 2,
    {
        let n = max_encoding_length(tm_buffer_size) + 2;
        let mut buf: Vec<u8> = Vec::new();
        let mut k: usize = 0;
        while k < n
            invariant
                k <= n,
                buf@.len() == k,
            decreases n - k,
        {
            buf.push(0u8);
            k += 1;
        }
        Self { tm_encoding_buffer: buf }
    }

    /// Puts the frame of `packet` into the buffer and returns its length;
    /// `None` where the buffer has no room for the longest encoding of a
    /// packet of that length and the two sentinels, which cannot happen for a
    /// packet that is not longer than the sender was made for.
    pub fn encode_frame(&mut self, packet: &[u8]) -> (r: Option<usize>)
        ensures
            final(self).buffer_len() == old(self).buffer_len(),
            r.is_some() == (old(self).buffer_len() >= crate::cobs_parser::max_encoding_length_spec(
                packet@.len(),
            ) + 2),
            r matches Some(n) ==> n <= old(self).buffer_len() && final(self).buffer().subrange(
                0,
                n as int,
            ) == cobs_frame(packet@),
    {
        let len = self.tm_encoding_buffer.len();
        let packet_len = packet.len();
        if packet_len >= len {
            return None;
        }
        let overhead: usize = if packet_len == 0 {
            1
        } else {
            (packet_len - 1) / 254 + 1
        };
        assert(packet_len + overhead == crate::cobs_parser::max_encoding_length_spec(packet@.len()));
        if len - packet_len < overhead || len - packet_len - overhead < 2 {
            return None;
        }
        self.tm_encoding_buffer[0] = 0;
        let n = match encode_frame_body(packet, self.tm_encoding_buffer.as_mut_slice(), 1) {
            Some(n) => n,
            None => {
                return None;
            },
        };
        let ghost mid = self.tm_encoding_buffer@;
        self.tm_encoding_buffer[n + 1] = 0;
        proof {
            let now = self.tm_encoding_buffer@;
            assert(now.subrange(1, n + 1) =~= mid.subrange(1, n + 1));
            assert(now.subrange(0, n + 2) =~= cobs_frame(packet@));
        }
        Some(n + 2)
    }

    /// Takes the packets of `tm_source` one after the other, until it gives
    /// no more, and writes the frame of each to `stream`. Returns whether a
    /// packet was sent.
    ///
    /// The frames of the packets that were taken were written, in their
    /// order, and counted. After an error the frames of the packets before the
    /// one that failed were written.
    pub fn handle_tm_sending<Src: TmPacketSourceCore, W: FrameWriter>(
        &mut self,
        tm_buffer: &mut [u8],
        tm_source: &mut Src,
        conn_result: &mut ConnectionResult,
        stream: &mut W,
    ) -> (r: Result<bool, TmSendError<Src::Error>>)
        ensures
            final(self).buffer_len() == old(self).buffer_len(),
            final(tm_buffer)@.len() == old(tm_buffer)@.len(),
            final(conn_result).num_received_tcs == old(conn_result).num_received_tcs,
            exists|sent: int|
                {
                    &&& 0 <= sent <= old(tm_source).pending().len()
                    &&& #[trigger] final(stream).written() == old(stream).written() + cobs_frames(
                        old(tm_source).pending().subrange(0, sent),
                    )
                    &&& final(conn_result).num_sent_tms == sat_add_u32(
                        old(conn_result).num_sent_tms,
                        clamp(sent),
                    )
                    &&& final(tm_source).pending() == old(tm_source).pending().subrange(
                        sent,
                        old(tm_source).pending().len() as int,
                    ) || r.is_err()
                    &&& r matches Ok(any) ==> any == (sent > 0)
                },
    {
        let mut tm_was_sent = false;
        let ghost all = tm_source.pending();
        let ghost mut sent: int = 0;
        proof {
            assert(all.subrange(0, 0) =~= Seq::<Seq<u8>>::empty());
            assert(old(stream).written() + cobs_frames(all.subrange(0, 0)) =~= old(stream).written());
        }
        loop
            invariant
                self.buffer_len() == old(self).buffer_len(),
                tm_buffer@.len() == old(tm_buffer)@.len(),
                conn_result.num_received_tcs == old(conn_result).num_received_tcs,
                all == old(tm_source).pending(),
                0 <= sent <= all.len(),
                tm_source.pending() == all.subrange(sent, all.len() as int),
                stream.written() == old(stream).written() + cobs_frames(all.subrange(0, sent)),
                conn_result.num_sent_tms == sat_add_u32(old(conn_result).num_sent_tms, clamp(sent)),
                tm_was_sent == (sent > 0),
            decreases all.len() - sent,
        {
            // Telemetry is written until the source has no more.
            let read_tm_len = match tm_source.retrieve_packet(tm_buffer) {
                Ok(n) => n,
                Err(e) => {
                    return Err(TmSendError::Source(e));
                },
            };
            if read_tm_len == 0 {
                return Ok(tm_was_sent);
            }
            let ghost packet = all[sent];
            let frame_len = match self.encode_frame(vstd::slice::slice_subrange(tm_buffer, 0, read_tm_len)) {
                Some(n) => n,
                None => {
                    return Err(TmSendError::EncodingBufferTooSmall);
                },
            };
            let ghost before = stream.written();
            let frame = vstd::slice::slice_subrange(self.tm_encoding_buffer.as_slice(), 0, frame_len);
            if !stream.write_all(frame) {
                return Err(TmSendError::Io);
            }
            tm_was_sent = true;
            conn_result.num_sent_tms = if conn_result.num_sent_tms == u32::MAX {
                u32::MAX
            } else {
                conn_result.num_sent_tms + 1
            };
            proof {
                assert(all.subrange(0, sent + 1).drop_last() =~= all.subrange(0, sent));
                assert(all.subrange(0, sent + 1).last() == packet);
                assert(all.subrange(sent, all.len() as int).drop_first() =~= all.subrange(
                    sent + 1,
                    all.len() as int,
                ));
                sent = sent + 1;
            }
        }
    }
}

/// The number as a `u32`, or the largest `u32` where it is larger.
pub open spec fn clamp(n: int) -> u32 {
    if n <= u32::MAX {
        n as u32
    } else {
        u32::MAX
    }
}

/// What the handling of a connection keeps between two reads: the buffer for
/// telecommands and how far it is filled.
pub struct TcpConnectionState {
    tc_buffer: Vec<u8>,
    write_idx: usize,
    pub conn_result: ConnectionResult,
}

impl TcpConnectionState {
    /// The invariant of the state: the fill level lies inside the buffer.
    pub closed spec fn wf(&self) -> bool {
        self.write_idx <= self.tc_buffer@.len() && self.tc_buffer@.len() <= u32::MAX
    }

    pub closed spec fn buffer(&self) -> Seq<u8> {
        self.tc_buffer@
    }

    pub closed spec fn write_idx(&self) -> nat {
        self.write_idx as nat
    }

    /// What was received and sent on the connection so far.
    pub closed spec fn counts(&self) -> ConnectionResult {
        self.conn_result
    }

    /// The state at the start of a connection: nothing was received or sent,
    /// and the buffer is empty and has `tc_buffer_size` bytes of zero, or
    /// 2^32 - 1 where that is less.
    pub open spec fn fresh(&self, tc_buffer_size: usize) -> bool {
        &&& self.wf()
        &&& self.write_idx() == 0
        &&& self.counts() == (ConnectionResult { num_received_tcs: 0, num_sent_tms: 0 })
        &&& self.buffer() == Seq::new(
            if tc_buffer_size <= u32::MAX {
                tc_buffer_size as nat
            } else {
                u32::MAX as nat
            },
            |i: int| 0u8,
        )
    }

    /// The state at the start of a connection, see [`Self::fresh`].
    pub fn new(tc_buffer_size: usize) -> (r: Self)
        ensures
            r.fresh(tc_buffer_size),
    {
        let n = if tc_buffer_size > u32::MAX as usize {
            u32::MAX as usize
        } else {
            tc_buffer_size
        };
        let mut buf: Vec<u8> = Vec::new();
        let mut k: usize = 0;
        while k < n
            invariant
                k <= n,
                buf@.len() == k,
                forall|i: int| 0 <= i < k ==> buf@[i] == 0u8,
            decreases n - k,
        {
            buf.push(0u8);
            k += 1;
        }
        assert(buf@ =~= Seq::new(n as nat, |i: int| 0u8));
        Self { tc_buffer: buf, write_idx: 0, conn_result: ConnectionResult::new() }
    }

    /// The part of the buffer that the next read is to fill.
    pub fn read_window(&mut self) -> (r: &mut [u8])
        requires
            old(self).wf(),
        ensures
            r@ == old(self).buffer().subrange(old(self).write_idx() as int, old(self).buffer().len() as int),
            final(r)@.len() == r@.len() ==> {
                &&& final(self).wf()
                &&& final(self).write_idx() == old(self).write_idx()
                &&& final(self).buffer() == old(self).buffer().subrange(0, old(self).write_idx() as int)
                    + final(r)@
            },
    {
        let idx = self.write_idx;
        let (_head, tail) = self.tc_buffer.as_mut_slice().split_at_mut(idx);
        tail
    }

    /// What the handling of a read of `read_len` bytes leaves behind and
    /// returns. A read of nothing changes nothing. Else the filled part of the
    /// buffer, which is `read_len` bytes longer now, is parsed as the parser
    /// says, see [`TcpTcParser::parsed`], with 0 as the index for the next
    /// write. After success the next read goes on at the index that the
    /// parser gave; after an error the fill level is as before.
    pub open spec fn read_handled<R: ReceivesTcCore, Pr: TcpTcParser<R>>(
        before: &Self,
        after: &Self,
        receiver_before: &R,
        receiver_after: &R,
        read_len: usize,
        r: Result<(), R::Error>,
    ) -> bool {
        if read_len == 0 {
            *after == *before && r.is_ok() && *receiver_after == *receiver_before
        } else {
            exists|next: usize| #[trigger]
                Pr::parsed(
                    before.buffer(),
                    after.buffer(),
                    receiver_before,
                    receiver_after,
                    before.counts(),
                    after.counts(),
                    (before.write_idx() + read_len) as usize,
                    0,
                    next,
                    r,
                ) && after.write_idx() == (if r.is_ok() {
                    next as nat
                } else {
                    before.write_idx()
                })
        }
    }

    /// What to do with the `read_len` bytes that a read has put into the read
    /// window: the filled part of the buffer is parsed, the packets go to
    /// `tc_receiver`, and the next read goes on behind what is kept of the
    /// buffer, see [`Self::read_handled`].
    pub fn handle_read<R: ReceivesTcCore, Pr: TcpTcParser<R>>(
        &mut self,
        parser: &mut Pr,
        tc_receiver: &mut R,
        read_len: usize,
    ) -> (r: Result<(), R::Error>)
        requires
            old(self).wf(),
            old(self).write_idx() + read_len <= old(self).buffer().len(),
        ensures
            final(self).wf(),
            final(self).buffer().len() == old(self).buffer().len(),
            read_len == 0 ==> *final(parser) == *old(parser),
            Self::read_handled::<R, Pr>(old(self), final(self), old(tc_receiver), final(tc_receiver), read_len, r),
    {
        if read_len == 0 {
            return Ok(());
        }
        let current_write_idx = self.write_idx + read_len;
        let mut next_write_idx: usize = 0;
        let parsed = parser.handle_tc_parsing(
            self.tc_buffer.as_mut_slice(),
            tc_receiver,
            &mut self.conn_result,
            current_write_idx,
            &mut next_write_idx,
        );
        if parsed.is_ok() {
            self.write_idx = next_write_idx;
        }
        proof {
            assert(Pr::parsed(
                old(self).buffer(),
                self.buffer(),
                old(tc_receiver),
                tc_receiver,
                old(self).counts(),
                self.counts(),
                (old(self).write_idx() + read_len) as usize,
                0,
                next_write_idx,
                parsed,
            ));
        }
        parsed
    }

    /// Whether the connection is done: a read has brought nothing and there
    /// was no telemetry to send.
    pub fn is_done(read_len: usize, tm_was_sent: bool) -> (r: bool)
        ensures
            r == (read_len == 0 && !tm_was_sent),
    {
        read_len == 0 && !tm_was_sent
    }
}


/// The TCP server for telemetry and telecommands in COBS frames, without its
/// socket: what it does with the bytes of a connection.
pub struct TcpTmtcInCobsServer<Src: TmPacketSourceCore, R: ReceivesTcCore> {
    pub cfg: ServerConfig,
    pub tc_parser: CobsTcParser,
    pub tm_sender: CobsTmSender,
    pub tm_source: Src,
    pub tc_receiver: R,
    pub tm_buffer: Vec<u8>,
}

impl<Src: TmPacketSourceCore, R: ReceivesTcCore> TcpTmtcInCobsServer<Src, R> {
    /// A server for the given configuration. `None` where the size of the
    /// telemetry buffer is so large that the size of the buffer for frames
    /// cannot be said.
    pub fn new(cfg: ServerConfig, tm_source: Src, tc_receiver: R) -> (r: Option<Self>)
        ensures
            match r {
                Some(server) => {
                    &&& server.cfg == cfg
                    &&& server.tm_source == tm_source
                    &&& server.tc_receiver == tc_receiver
                    &&& server.tm_buffer@.len() == cfg.tm_buffer_size
                    &&& server.tm_sender.buffer_len() == crate::cobs_parser::max_encoding_length_spec(
                        cfg.tm_buffer_size as nat,
                    ) + 2
                },
                None => crate::cobs_parser::max_encoding_length_spec(cfg.tm_buffer_size as nat) + 2
                    > usize::MAX,
            },
    {
        let size = cfg.tm_buffer_size;
        if size > usize::MAX - 3 - size / 254 {
            return None;
        }
        let mut tm_buffer: Vec<u8> = Vec::new();
        let mut k: usize = 0;
        while k < size
            invariant
                k <= size,
                tm_buffer@.len() == k,
            decreases size - k,
        {
            tm_buffer.push(0u8);
            k += 1;
        }
        Some(
            Self {
                cfg,
                tc_parser: CobsTcParser::new(),
                tm_sender: CobsTmSender::new(size),
                tm_source,
                tc_receiver,
                tm_buffer,
            },
        )
    }

    /// The state for a new connection, see [`TcpConnectionState::fresh`]: its
    /// buffer has the size that the configuration gives for telecommands.
    pub fn start_connection(&self) -> (r: TcpConnectionState)
        ensures
            r.fresh(self.cfg.tc_buffer_size),
    {
        TcpConnectionState::new(self.cfg.tc_buffer_size)
    }

    /// What to do after a read: the read is handled as
    /// [`TcpConnectionState::read_handled`] says for the parser of COBS frames
    /// and the receiver of the server, and an error of the receiver comes
    /// back as [`TcpTmtcError::TcError`]. Nothing else of the server changes.
    pub fn handle_read(&mut self, conn: &mut TcpConnectionState, read_len: usize) -> (r: Result<
        (),
        TcpTmtcError<Src::Error, R::Error>,
    >)
        requires
            old(conn).wf(),
            old(conn).write_idx() + read_len <= old(conn).buffer().len(),
        ensures
            final(conn).wf(),
            final(conn).buffer().len() == old(conn).buffer().len(),
            final(self).tm_source == old(self).tm_source,
            final(self).cfg == old(self).cfg,
            final(self).tm_sender == old(self).tm_sender,
            final(self).tm_buffer == old(self).tm_buffer,
            read_len == 0 ==> *final(self) == *old(self),
            exists|inner: Result<(), R::Error>| #[trigger]
                TcpConnectionState::read_handled::<R, CobsTcParser>(
                    old(conn),
                    final(conn),
                    &old(self).tc_receiver,
                    &final(self).tc_receiver,
                    read_len,
                    inner,
                ) && match inner {
                    Ok(()) => r matches Ok(()),
                    Err(e) => r matches Err(TcpTmtcError::TcError(f)) && f == e,
                },
    {
        let inner = conn.handle_read(&mut self.tc_parser, &mut self.tc_receiver, read_len);
        proof {
            assert(TcpConnectionState::read_handled::<R, CobsTcParser>(
                old(conn),
                conn,
                &old(self).tc_receiver,
                &self.tc_receiver,
                read_len,
                inner,
            ));
        }
        match inner {
            Ok(()) => Ok(()),
            Err(e) => Err(TcpTmtcError::TcError(e)),
        }
    }

    /// Sends the telemetry that is there to `stream`, see
    /// [`CobsTmSender::handle_tm_sending`]. Returns whether a packet was sent.
    pub fn send_pending_tm<W: FrameWriter>(&mut self, conn: &mut TcpConnectionState, stream: &mut W) -> (r:
        Result<bool, TcpTmtcError<Src::Error, R::Error>>)
        ensures
            final(self).tc_receiver == old(self).tc_receiver,
            final(self).cfg == old(self).cfg,
            final(self).tm_buffer@.len() == old(self).tm_buffer@.len(),
            exists|sent: int|
                {
                    &&& 0 <= sent <= old(self).tm_source.pending().len()
                    &&& #[trigger] final(stream).written() == old(stream).written() + cobs_frames(
                        old(self).tm_source.pending().subrange(0, sent),
                    )
                    &&& r matches Ok(any) ==> any == (sent > 0)
                },
    {
        let mut result = conn.conn_result;
        let sent = self.tm_sender.handle_tm_sending(
            self.tm_buffer.as_mut_slice(),
            &mut self.tm_source,
            &mut result,
            stream,
        );
        conn.conn_result = result;
        match sent {
            Ok(any) => Ok(any),
            Err(TmSendError::Source(e)) => Err(TcpTmtcError::TmError(e)),
            Err(TmSendError::EncodingBufferTooSmall) => Err(TcpTmtcError::EncodingBufferTooSmall),
            Err(TmSendError::Io) => Err(TcpTmtcError::Io),
        }
    }
}

} // verus!
