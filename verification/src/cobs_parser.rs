//! Parser for telecommands framed with COBS and zero sentinels.
//!
//! A frame is `0 | body | 0`, the body being free of zeroes. Runs of zeroes
//! between frames are skipped. A frame whose closing sentinel has not arrived
//! yet is kept for the next read.
use crate::spacepackets::move_to_front;
use crate::tmtc::ReceivesTcCore;
use vstd::prelude::*;

verus! {

/// What `cobs::decode_in_place` makes of a frame body: the decoded bytes, or
/// `None` where it reports an error.
pub uninterp spec fn cobs_decode(frame: Seq<u8>) -> Option<Seq<u8>>;

/// Wrapper of `cobs::decode_in_place` on the part `start..end` of `buf`.
///
/// The decoder works inside the part it is given and writes the decoded bytes to
/// its front; it returns their number, which is never more than the length of
/// the part. Nothing is claimed of the bytes behind the decoded ones, nor of the
/// part after an error.
#[verifier::external_body]
fn decode_frame_in_place(buf: &mut [u8], start: usize, end: usize) -> (r: Option<usize>)
    requires
        start <= end <= old(buf)@.len(),
    ensures
        final(buf)@.len() == old(buf)@.len(),
        forall|k: int| 0 <= k < start || end <= k < old(buf)@.len() ==> final(buf)@[k] == old(buf)@[k],
        match r {
            Some(n) => {
                &&& n <= end - start
                &&& cobs_decode(old(buf)@.subrange(start as int, end as int)) == Some(
                    final(buf)@.subrange(start as int, start + n),
                )
            },
            None => cobs_decode(old(buf)@.subrange(start as int, end as int)).is_none(),
        },
{
    ::cobs::decode_in_place(&mut buf[start..end]).ok()
}

/// What `cobs::try_encode` writes for a payload into a destination that has
/// room for it: the encoded bytes, without sentinels.
pub uninterp spec fn cobs_encoded(payload: Seq<u8>) -> Seq<u8>;

/// The longest that the encoding of a payload of `n` bytes can be: one byte
/// more for every 254 bytes or part of them, and one byte more for an empty
/// payload.
pub open spec fn max_encoding_length_spec(n: nat) -> nat {
    n + (if n == 0 {
        1nat
    } else {
        ((n + 253) / 254) as nat
    })
}

/// The longest that the encoding of a payload of `source_len` bytes can be,
/// as `cobs::max_encoding_length` computes it.
pub fn max_encoding_length(source_len: usize) -> (r: usize)
    requires
        max_encoding_length_spec(source_len as nat) <= usize::MAX,
    ensures
        r == max_encoding_length_spec(source_len as nat),
{
    if source_len == 0 {
        1
    } else {
        source_len + (source_len - 1) / 254 + 1
    }
}

/// Wrapper of `cobs::try_encode` with the part of `dest` from index `at` on
/// as destination, for a destination that has room for the longest encoding
/// of the payload.
///
/// With that much room the encoder succeeds: it writes the encoded payload to
/// the front of its destination and returns its length, which is never more
/// than `cobs::max_encoding_length` gives for the payload. On a shorter
/// destination the encoder may report an error, or a length that the
/// destination does not have; the wrapper is not for those.
#[verifier::external_body]
pub(crate) fn encode_frame_body(source: &[u8], dest: &mut [u8], at: usize) -> (r: Option<usize>)
    requires
        at <= old(dest)@.len(),
        old(dest)@.len() - at >= max_encoding_length_spec(source@.len()),
    ensures
        final(dest)@.len() == old(dest)@.len(),
        forall|k: int| 0 <= k < at ==> final(dest)@[k] == old(dest)@[k],
        r.is_some(),
        r matches Some(n) ==> n <= max_encoding_length_spec(source@.len()),
        r matches Some(n) ==> final(dest)@.subrange(at as int, at + n) == cobs_encoded(source@),
{
    ::cobs::try_encode(source, &mut dest[at..]).ok()
}

/// Where the scan for sentinels stands.
pub struct ScanState {
    /// The bodies of the frames closed so far: first index and index of the closing sentinel.
    pub frames: Seq<(int, int)>,
    /// An opening sentinel was seen and its frame is not closed yet.
    pub start_found: bool,
    /// First index of the body of the open frame, that is one more than the
    /// index of the opening sentinel.
    pub start: int,
}

/// One step of the scan, on the byte at index `i`.
pub open spec fn scan_step(buf: Seq<u8>, st: ScanState, i: int) -> ScanState {
    if buf[i] != 0 {
        st
    } else if !st.start_found && i + 1 < buf.len() && buf[i + 1] == 0 {
        st
    } else if st.start_found {
        ScanState { frames: st.frames.push((st.start, i)), start_found: false, start: st.start }
    } else {
        ScanState { frames: st.frames, start_found: true, start: i + 1 }
    }
}

/// The scan of the first `i` bytes of `buf`.
pub open spec fn scan_to(buf: Seq<u8>, i: int) -> ScanState
    decreases i,
{
    if i <= 0 {
        ScanState { frames: Seq::empty(), start_found: false, start: 0 }
    } else {
        scan_step(buf, scan_to(buf, i - 1), i - 1)
    }
}

/// The packets in the given frames of `buf`, in order. A frame that does not
/// decode gives none.
pub open spec fn decoded_frames(buf: Seq<u8>, frames: Seq<(int, int)>) -> Seq<Seq<u8>>
    decreases frames.len(),
{
    if frames.len() == 0 {
        Seq::empty()
    } else {
        let rest = decoded_frames(buf, frames.drop_last());
        match cobs_decode(buf.subrange(frames.last().0, frames.last().1)) {
            Some(packet) => rest.push(packet),
            None => rest,
        }
    }
}

/// Every frame of a scan lies inside the buffer, and the open frame starts
/// inside it or at its end.
pub proof fn lemma_scan_bounds(buf: Seq<u8>, i: int)
    requires
        0 <= i <= buf.len(),
    ensures
        forall|k: int|
            0 <= k < scan_to(buf, i).frames.len() ==> 0 < (#[trigger] scan_to(buf, i).frames[k]).0
                <= scan_to(buf, i).frames[k].1 < i,
        scan_to(buf, i).start_found ==> 0 < scan_to(buf, i).start <= i,
        scan_to(buf, i).frames.len() <= i,
    decreases i,
{
    if i > 0 {
        lemma_scan_bounds(buf, i - 1);
    }
}

/// Parses `buf` for COBS frames and hands each decoded packet to `tc_receiver`.
///
/// Returns the number of packets handed over, or the error of the receiver
/// that refused one; nothing is handed over after a refusal. Where the buffer
/// ends inside a frame, that frame is moved to the front of the buffer,
/// opening sentinel included, and `next_write_idx` is set to its length, so
/// that the next read can go on behind it. Else `next_write_idx` stays.
pub fn parse_buffer_for_cobs_encoded_packets<R: ReceivesTcCore>(
    buf: &mut [u8],
    tc_receiver: &mut R,
    next_write_idx: &mut usize,
) -> (r: Result<u32, R::Error>)
    requires
        old(buf)@.len() <= u32::MAX,
    ensures
        final(buf)@.len() == old(buf)@.len(),
        ({
            let len = old(buf)@.len() as int;
            let st = scan_to(old(buf)@, len);
            let packets = decoded_frames(old(buf)@, st.frames);
            match r {
                Ok(n) => {
                    &&& n == packets.len()
                    &&& final(tc_receiver).received() == old(tc_receiver).received() + packets
                    &&& if st.start_found {
                        &&& *final(next_write_idx) == len - st.start + 1
                        &&& final(buf)@.subrange(0, len - st.start + 1) == old(buf)@.subrange(
                            st.start - 1,
                            len,
                        )
                    } else {
                        *final(next_write_idx) == *old(next_write_idx)
                    }
                },
                Err(_) => {
                    &&& *final(next_write_idx) == *old(next_write_idx)
                    &&& exists|k: int|
                        0 <= k < packets.len() && final(tc_receiver).received() == old(
                            tc_receiver,
                        ).received() + #[trigger] packets.subrange(0, k)
                },
            }
        }),
{
    let ghost orig = buf@;
    let ghost mut st = scan_to(orig, 0);
    let len = buf.len();
    let mut start_index_packet: usize = 0;
    let mut start_found = false;
    let mut packets_found: u32 = 0;
    let mut i: usize = 0;
    assert(old(tc_receiver).received() + decoded_frames(orig, st.frames) =~= old(tc_receiver).received());
    while i < len
        invariant
            i <= len,
            len == buf@.len(),
            len == orig.len(),
            len <= u32::MAX,
            orig == old(buf)@,
            st == scan_to(orig, i as int),
            start_found == st.start_found,
            start_found ==> start_index_packet == st.start,
            start_found ==> 0 < start_index_packet <= i,
            packets_found == decoded_frames(orig, st.frames).len(),
            packets_found <= st.frames.len() <= i,
            tc_receiver.received() == old(tc_receiver).received() + decoded_frames(orig, st.frames),
            forall|k: int| (i <= k < len) || (start_found && start_index_packet - 1 <= k < len) ==> buf@[k] == orig[k],
            *next_write_idx == *old(next_write_idx),
        decreases len - i,
    {
        proof {
            lemma_scan_bounds(orig, i as int);
        }
        let ghost prev = st;
        proof {
            st = scan_step(orig, prev, i as int);
            assert(scan_to(orig, i + 1) == st);
        }
        if buf[i] == 0 {
            if !start_found && i + 1 < len && buf[i + 1] == 0 {
                // A run of sentinels, or an empty frame: nothing to take.
            } else if start_found {
                let ghost before = buf@;
                let decoded = decode_frame_in_place(buf, start_index_packet, i);
                proof {
                    assert(before.subrange(start_index_packet as int, i as int) =~= orig.subrange(
                        start_index_packet as int,
                        i as int,
                    ));
                    assert(st.frames.drop_last() =~= prev.frames);
                }
                start_found = false;
                if let Some(packet_len) = decoded {
                    let packet = vstd::slice::slice_subrange(
                        buf,
                        start_index_packet,
                        start_index_packet + packet_len,
                    );
                    let ghost log = tc_receiver.received();
                    match tc_receiver.pass_tc(packet) {
                        Ok(()) => {},
                        Err(e) => {
                            proof {
                                lemma_scan_grows(orig, i as int + 1, len as int);
                                lemma_decoded_prefix(orig, st.frames, scan_to(orig, len as int).frames);
                                let before_count = decoded_frames(orig, prev.frames).len() as int;
                                let all = decoded_frames(orig, scan_to(orig, len as int).frames);
                                assert(all.subrange(0, before_count) =~= decoded_frames(orig, prev.frames)) by {
                                    assert(decoded_frames(orig, st.frames).subrange(0, before_count)
                                        =~= decoded_frames(orig, prev.frames));
                                }
                            }
                            return Err(e);
                        },
                    }
                    packets_found += 1;
                    proof {
                        assert(log.push(packet@) =~= old(tc_receiver).received() + decoded_frames(
                            orig,
                            st.frames,
                        ));
                    }
                }
            } else {
                start_index_packet = i + 1;
                start_found = true;
            }
        }
        i += 1;
    }
    if start_found {
        move_to_front(buf, start_index_packet - 1);
        *next_write_idx = len - start_index_packet + 1;
    }
    Ok(packets_found)
}

/// A longer scan keeps the frames of a shorter one, in front of its own.
pub proof fn lemma_scan_grows(buf: Seq<u8>, i: int, j: int)
    requires
        0 <= i <= j <= buf.len(),
    ensures
        scan_to(buf, i).frames.len() <= scan_to(buf, j).frames.len(),
        scan_to(buf, j).frames.subrange(0, scan_to(buf, i).frames.len() as int) == scan_to(
            buf,
            i,
        ).frames,
    decreases j - i,
{
    if i == j {
        assert(scan_to(buf, j).frames.subrange(0, scan_to(buf, i).frames.len() as int) =~= scan_to(
            buf,
            i,
        ).frames);
    } else {
        lemma_scan_grows(buf, i, j - 1);
        let a = scan_to(buf, i).frames;
        let b = scan_to(buf, j - 1).frames;
        let c = scan_to(buf, j).frames;
        assert(c.subrange(0, a.len() as int) =~= b.subrange(0, a.len() as int));
    }
}

/// The packets of a list of frames start with the packets of each of its prefixes.
pub proof fn lemma_decoded_prefix(buf: Seq<u8>, short: Seq<(int, int)>, long: Seq<(int, int)>)
    requires
        short.len() <= long.len(),
        long.subrange(0, short.len() as int) == short,
    ensures
        decoded_frames(buf, short).len() <= decoded_frames(buf, long).len(),
        decoded_frames(buf, long).subrange(0, decoded_frames(buf, short).len() as int)
            == decoded_frames(buf, short),
    decreases long.len() - short.len(),
{
    if short.len() == long.len() {
        assert(long =~= short);
        assert(decoded_frames(buf, long).subrange(0, decoded_frames(buf, short).len() as int)
            =~= decoded_frames(buf, short));
    } else {
        let mid = long.drop_last();
        assert(mid.subrange(0, short.len() as int) =~= short);
        lemma_decoded_prefix(buf, short, mid);
        let n = decoded_frames(buf, short).len() as int;
        assert(decoded_frames(buf, long).subrange(0, n) =~= decoded_frames(buf, mid).subrange(0, n));
    }
}


/// No byte of `body` is a sentinel.
pub open spec fn free_of_zeros(body: Seq<u8>) -> bool {
    forall|k: int| 0 <= k < body.len() ==> body[k] != 0
}

/// The scan of a sentinel followed by bytes that are no sentinels: after the
/// sentinel a frame is open, and it stays open.
proof fn lemma_scan_open(buf: Seq<u8>, n: int, i: int)
    requires
        1 <= i <= n + 1 <= buf.len(),
        1 <= n,
        buf[0] == 0,
        forall|k: int| 1 <= k <= n ==> buf[k] != 0,
    ensures
        scan_to(buf, i) == (ScanState { frames: Seq::empty(), start_found: true, start: 1 }),
    decreases i,
{
    if i == 1 {
        assert(scan_to(buf, 0) == (ScanState { frames: Seq::empty(), start_found: false, start: 0 }));
    } else {
        lemma_scan_open(buf, n, i - 1);
    }
}

/// Split frames: a frame that is cut off after its opening sentinel and part
/// of its body is kept as it is; and once the rest of the body and the closing
/// sentinel stand behind it, a scan finds exactly the frame of the whole body.
pub proof fn law_split_frame(body_head: Seq<u8>, body_tail: Seq<u8>)
    requires
        free_of_zeros(body_head),
        free_of_zeros(body_tail),
        body_head.len() + body_tail.len() > 0,
    ensures
        ({
            let kept = seq![0u8] + body_head;
            let whole = kept + body_tail + seq![0u8];
            let end = 1 + body_head.len() + body_tail.len();
            let st = scan_to(whole, whole.len() as int);
            &&& body_head.len() > 0 ==> scan_to(kept, kept.len() as int) == (ScanState {
                frames: Seq::empty(),
                start_found: true,
                start: 1,
            })
            &&& st.frames == seq![(1int, end as int)]
            &&& !st.start_found
            &&& whole.subrange(1, end as int) == body_head + body_tail
            &&& decoded_frames(whole, st.frames) == (match cobs_decode(body_head + body_tail) {
                Some(packet) => seq![packet],
                None => Seq::<Seq<u8>>::empty(),
            })
        }),
{
    let kept = seq![0u8] + body_head;
    let whole = kept + body_tail + seq![0u8];
    let n = (body_head.len() + body_tail.len()) as int;
    let end = 1 + n;
    assert(whole.len() == n + 2);
    assert forall|k: int| 1 <= k <= n implies whole[k] != 0 by {
        if k <= body_head.len() {
            assert(whole[k] == body_head[k - 1]);
        } else {
            assert(whole[k] == body_tail[k - 1 - body_head.len()]);
        }
    }
    lemma_scan_open(whole, n, n + 1);
    assert(whole[n + 1] == 0);
    let before = scan_to(whole, n + 1);
    let st = scan_to(whole, n + 2);
    assert(st == scan_step(whole, before, n + 1));
    assert(st.frames =~= seq![(1int, end)]);
    assert(whole.subrange(1, end) =~= body_head + body_tail);
    if body_head.len() > 0 {
        assert forall|k: int| 1 <= k <= body_head.len() implies kept[k] != 0 by {
            assert(kept[k] == body_head[k - 1]);
        }
        lemma_scan_open(kept, body_head.len() as int, body_head.len() as int + 1);
    }
    assert(st.frames.drop_last() =~= Seq::<(int, int)>::empty());
    assert(decoded_frames(whole, st.frames.drop_last()) =~= Seq::<Seq<u8>>::empty());
    match cobs_decode(body_head + body_tail) {
        Some(packet) => {
            assert(decoded_frames(whole, st.frames) =~= seq![packet]);
        },
        None => {},
    }
}

/// While a frame is open at the end of a scan, the byte before its body is a
/// sentinel and no byte of its body is one: what the parser keeps of a buffer
/// is a sentinel followed by the part of a body.
pub proof fn lemma_open_frame(buf: Seq<u8>, i: int)
    requires
        0 <= i <= buf.len(),
        scan_to(buf, i).start_found,
    ensures
        1 <= scan_to(buf, i).start <= i,
        buf[scan_to(buf, i).start - 1] == 0,
        forall|k: int| scan_to(buf, i).start <= k < i ==> buf[k] != 0,
    decreases i,
{
    if i > 0 {
        let before = scan_to(buf, i - 1);
        if before.start_found {
            lemma_open_frame(buf, i - 1);
        }
    }
}

} // verus!
