//! Parser for a stream of tightly packed CCSDS space packets.
//!
//! The start of a packet is found by its packet id, the first two bytes of the
//! header, which a lookup has to accept. The length field at offset 4 then gives
//! the size of the packet: its value plus 7.
use crate::index_map::{id_set_contains, id_set_insert, id_set_new, IdSet};
use crate::spacepackets::{move_to_front, PacketId};
use crate::tmtc::ReceivesTcCore;
use vstd::prelude::*;

verus! {

/// Decides which packet ids start a packet.
pub trait PacketIdLookup {
    open spec fn accepts(&self, packet_id: u16) -> bool {
        arbitrary()
    }

    fn validate(&self, packet_id: u16) -> (r: bool)
        ensures
            r == self.accepts(packet_id),
    ;
}

impl PacketIdLookup for Vec<u16> {
    open spec fn accepts(&self, packet_id: u16) -> bool {
        self@.contains(packet_id)
    }

    fn validate(&self, packet_id: u16) -> (r: bool) {
        let mut i: usize = 0;
        while i < self.len()
            invariant
                i <= self@.len(),
                forall|k: int| 0 <= k < i ==> self@[k] != packet_id,
            decreases self@.len() - i,
        {
            if self[i] == packet_id {
                return true;
            }
            i += 1;
        }
        false
    }
}

/// A lookup that keeps the accepted packet ids in a hash set.
pub struct PacketIdSet {
    ids: IdSet,
}

impl PacketIdSet {
    /// A set that accepts nothing.
    pub fn new() -> (r: Self)
        ensures
            forall|id: u16| !r.accepts(id),
    {
        PacketIdSet { ids: id_set_new() }
    }

    /// Lets the set accept `packet_id`. Returns whether it did not before.
    pub fn insert(&mut self, packet_id: u16) -> (r: bool)
        ensures
            r == !old(self).accepts(packet_id),
            forall|id: u16| final(self).accepts(id) == (id == packet_id || old(self).accepts(id)),
    {
        id_set_insert(&mut self.ids, packet_id as u32)
    }
}

impl PacketIdLookup for PacketIdSet {
    closed spec fn accepts(&self, packet_id: u16) -> bool {
        crate::index_map::id_set(self.ids).contains(packet_id as u32)
    }

    fn validate(&self, packet_id: u16) -> (r: bool) {
        id_set_contains(&self.ids, packet_id as u32)
    }
}

impl PacketIdLookup for &[u16] {
    open spec fn accepts(&self, packet_id: u16) -> bool {
        self@.contains(packet_id)
    }

    fn validate(&self, packet_id: u16) -> (r: bool) {
        let mut i: usize = 0;
        while i < self.len()
            invariant
                i <= self@.len(),
                forall|k: int| 0 <= k < i ==> self@[k] != packet_id,
            decreases self@.len() - i,
        {
            if self[i] == packet_id {
                return true;
            }
            i += 1;
        }
        false
    }
}

impl PacketIdLookup for &[PacketId] {
    open spec fn accepts(&self, packet_id: u16) -> bool {
        self@.contains(PacketId::of_raw(packet_id))
    }

    fn validate(&self, packet_id: u16) -> (r: bool) {
        let wanted = PacketId::from_raw(packet_id);
        let mut i: usize = 0;
        while i < self.len()
            invariant
                i <= self@.len(),
                wanted == PacketId::of_raw(packet_id),
                forall|k: int| 0 <= k < i ==> self@[k] != wanted,
            decreases self@.len() - i,
        {
            if self[i] == wanted {
                return true;
            }
            i += 1;
        }
        false
    }
}

/// A lookup that keeps the accepted packet identifications in a hash set. A
/// word is accepted by its 13 low bits: the version above them is no part of
/// the packet identification.
pub struct PacketIdHashSet {
    ids: IdSet,
}

impl PacketIdHashSet {
    /// Whether the packet identification is in the set.
    pub closed spec fn holds(&self, packet_id: PacketId) -> bool {
        crate::index_map::id_set(self.ids).contains(packet_id.raw_spec() as u32)
    }

    /// A set that accepts nothing.
    pub fn new() -> (r: Self)
        ensures
            forall|id: u16| !r.accepts(id),
    {
        PacketIdHashSet { ids: id_set_new() }
    }

    /// Lets the set accept the words that stand for `packet_id`. Returns
    /// whether it did not before.
    pub fn insert(&mut self, packet_id: PacketId) -> (r: bool)
        ensures
            forall|id: u16|
                final(self).accepts(id) == (PacketId::of_raw(id).raw_spec() == packet_id.raw_spec()
                    || old(self).accepts(id)),
            r == !old(self).holds(packet_id),
    {
        id_set_insert(&mut self.ids, packet_id.raw() as u32)
    }
}

impl PacketIdLookup for PacketIdHashSet {
    closed spec fn accepts(&self, packet_id: u16) -> bool {
        crate::index_map::id_set(self.ids).contains(PacketId::of_raw(packet_id).raw_spec() as u32)
    }

    fn validate(&self, packet_id: u16) -> (r: bool) {
        id_set_contains(&self.ids, PacketId::from_raw(packet_id).raw() as u32)
    }
}

impl PacketIdLookup for Vec<crate::spacepackets::PacketId> {
    open spec fn accepts(&self, packet_id: u16) -> bool {
        self@.contains(crate::spacepackets::PacketId::of_raw(packet_id))
    }

    fn validate(&self, packet_id: u16) -> (r: bool) {
        let wanted = crate::spacepackets::PacketId::from_raw(packet_id);
        let mut i: usize = 0;
        while i < self.len()
            invariant
                i <= self@.len(),
                wanted == crate::spacepackets::PacketId::of_raw(packet_id),
                forall|k: int| 0 <= k < i ==> self@[k] != wanted,
            decreases self@.len() - i,
        {
            if self[i] == wanted {
                return true;
            }
            i += 1;
        }
        false
    }
}

/// The big-endian 16-bit word at index `i` of `buf`.
pub open spec fn be_u16_at(buf: Seq<u8>, i: int) -> int {
    buf[i] as int * 256 + buf[i + 1] as int
}

/// The size of the packet whose header starts at index `i`.
pub open spec fn packet_size_at(buf: Seq<u8>, i: int) -> int {
    be_u16_at(buf, i + 4) + 7
}

/// What the parser finds from index `idx` on.
pub struct PacketScan {
    /// The complete packets: first index and index behind the last byte.
    pub packets: Seq<(int, int)>,
    /// Where a packet starts that goes on behind the end of the buffer.
    pub tail: Option<int>,
}

/// The scan of `buf` from index `idx` on. It needs two bytes to look at a
/// packet id, goes on byte by byte where the packet id is not accepted, and
/// stops at a packet that is not complete: one whose header goes on behind
/// the end of the buffer, or whose length field says that the packet does.
pub open spec fn scan_from(buf: Seq<u8>, accepts: spec_fn(u16) -> bool, idx: int) -> PacketScan
    decreases buf.len() - idx,
{
    if idx < 0 || idx + 1 >= buf.len() {
        PacketScan { packets: Seq::empty(), tail: None }
    } else if accepts(be_u16_at(buf, idx) as u16) {
        if idx + 6 <= buf.len() && idx + packet_size_at(buf, idx) <= buf.len() {
            let end = idx + packet_size_at(buf, idx);
            let rest = scan_from(buf, accepts, end);
            PacketScan { packets: seq![(idx, end)] + rest.packets, tail: rest.tail }
        } else {
            PacketScan { packets: Seq::empty(), tail: Some(idx) }
        }
    } else {
        scan_from(buf, accepts, idx + 1)
    }
}

/// The bytes of the given packets.
pub open spec fn packet_bytes(buf: Seq<u8>, packets: Seq<(int, int)>) -> Seq<Seq<u8>> {
    Seq::new(packets.len(), |k: int| buf.subrange(packets[k].0, packets[k].1))
}

fn read_be_u16(buf: &[u8], i: usize) -> (r: u16)
    requires
        i + 1 < buf@.len(),
    ensures
        r == be_u16_at(buf@, i as int),
{
    let hi: u16 = buf[i] as u16;
    let lo: u16 = buf[i + 1] as u16;
    hi * 256 + lo
}

/// Parses `buf` for CCSDS space packets and hands each complete one to
/// `tc_receiver`.
///
/// Returns the number of packets handed over, or the error of the receiver
/// that refused one. A packet at the end that goes on behind the buffer is
/// moved to the front, and `next_write_idx` is set to the number of its bytes
/// that are there. Else `next_write_idx` and the buffer stay.
pub fn parse_buffer_for_ccsds_space_packets<L: PacketIdLookup, R: ReceivesTcCore>(
    buf: &mut [u8],
    packet_id_lookup: &L,
    tc_receiver: &mut R,
    next_write_idx: &mut usize,
) -> (r: Result<u32, R::Error>)
    requires
        old(buf)@.len() <= u32::MAX,
    ensures
        final(buf)@.len() == old(buf)@.len(),
        ({
            let len = old(buf)@.len() as int;
            let scan = scan_from(old(buf)@, |id: u16| packet_id_lookup.accepts(id), 0);
            let packets = packet_bytes(old(buf)@, scan.packets);
            match r {
                Ok(n) => {
                    &&& n == packets.len()
                    &&& final(tc_receiver).received() == old(tc_receiver).received() + packets
                    &&& match scan.tail {
                        Some(at) => {
                            &&& *final(next_write_idx) == len - at
                            &&& final(buf)@.subrange(0, len - at) == old(buf)@.subrange(at, len)
                        },
                        None => *final(next_write_idx) == *old(next_write_idx) && final(buf)@
                            == old(buf)@,
                    }
                },
                Err(_) => {
                    &&& *final(next_write_idx) == *old(next_write_idx)
                    &&& final(buf)@ == old(buf)@
                    &&& exists|k: int|
                        0 <= k < packets.len() && final(tc_receiver).received() == old(
                            tc_receiver,
                        ).received() + #[trigger] packets.subrange(0, k)
                },
            }
        }),
{
    let ghost orig = buf@;
    let ghost accepts = |id: u16| packet_id_lookup.accepts(id);
    let ghost total = scan_from(orig, accepts, 0);
    let ghost mut done: Seq<(int, int)> = Seq::empty();
    let buf_len = buf.len();
    let mut packets_found: u32 = 0;
    let mut current_idx: usize = 0;
    let mut partial = false;
    assert(done + total.packets =~= total.packets);
    assert(packet_bytes(orig, done) =~= Seq::<Seq<u8>>::empty());
    assert(old(tc_receiver).received() + packet_bytes(orig, done) =~= old(tc_receiver).received());
    loop
        invariant_except_break
            !partial,
        invariant
            buf@ == orig,
            orig == old(buf)@,
            buf_len == orig.len(),
            buf_len <= u32::MAX,
            current_idx <= buf_len,
            accepts == |id: u16| packet_id_lookup.accepts(id),
            total == scan_from(orig, accepts, 0),
            total.packets == done + scan_from(orig, accepts, current_idx as int).packets,
            total.tail == scan_from(orig, accepts, current_idx as int).tail,
            packets_found == done.len(),
            done.len() <= current_idx,
            forall|k: int| 0 <= k < done.len() ==> 0 <= (#[trigger] done[k]).0 <= done[k].1 <= buf_len,
            tc_receiver.received() == old(tc_receiver).received() + packet_bytes(orig, done),
            *next_write_idx == *old(next_write_idx),
        ensures
            buf@ == orig,
            total.packets == done,
            packets_found == done.len(),
            tc_receiver.received() == old(tc_receiver).received() + packet_bytes(orig, done),
            *next_write_idx == *old(next_write_idx),
            match total.tail {
                Some(at) => partial && at == current_idx && at + 1 < buf_len,
                None => !partial,
            },
        decreases buf_len - current_idx,
    {
        if buf_len < 2 || current_idx >= buf_len - 1 {
            assert(done + Seq::<(int, int)>::empty() =~= done);
            break;
        }
        let packet_id = read_be_u16(buf, current_idx);
        if packet_id_lookup.validate(packet_id) {
            if buf_len - current_idx < 6 {
                assert(done + Seq::<(int, int)>::empty() =~= done);
                partial = true;
                break;
            }
            let length_field = read_be_u16(buf, current_idx + 4);
            let packet_size: usize = length_field as usize + 7;
            if packet_size <= buf_len - current_idx {
                let end = current_idx + packet_size;
                let packet = vstd::slice::slice_subrange(buf, current_idx, end);
                let ghost log = tc_receiver.received();
                let ghost rest = scan_from(orig, accepts, end as int);
                proof {
                    assert(scan_from(orig, accepts, current_idx as int).packets == seq![
                        (current_idx as int, end as int),
                    ] + rest.packets);
                    assert(total.packets =~= done.push((current_idx as int, end as int)) + rest.packets);
                }
                match tc_receiver.pass_tc(packet) {
                    Ok(()) => {},
                    Err(e) => {
                        proof {
                            let all = packet_bytes(orig, total.packets);
                            assert(all.subrange(0, done.len() as int) =~= packet_bytes(orig, done));
                        }
                        return Err(e);
                    },
                }
                proof {
                    done = done.push((current_idx as int, end as int));
                    assert(log.push(packet@) =~= old(tc_receiver).received() + packet_bytes(orig, done));
                }
                packets_found += 1;
                current_idx = end;
            } else {
                assert(done + Seq::<(int, int)>::empty() =~= done);
                partial = true;
                break;
            }
        } else {
            current_idx += 1;
        }
    }
    proof {
        assert(packet_bytes(orig, done) == packet_bytes(orig, total.packets));
    }
    if partial {
        move_to_front(buf, current_idx);
        *next_write_idx = buf_len - current_idx;
    }
    Ok(packets_found)
}


/// The packets one behind the other.
pub open spec fn joined(packets: Seq<Seq<u8>>) -> Seq<u8>
    decreases packets.len(),
{
    if packets.len() == 0 {
        Seq::empty()
    } else {
        packets.first() + joined(packets.drop_first())
    }
}

/// `p` is a whole packet: its packet id is accepted and its length is the one
/// that its length field gives.
pub open spec fn whole_packet(p: Seq<u8>, accepts: spec_fn(u16) -> bool) -> bool {
    &&& p.len() >= 7
    &&& accepts(be_u16_at(p, 0) as u16)
    &&& packet_size_at(p, 0) == p.len()
}

/// `p` is the start of a packet that goes on: its packet id is there and is
/// accepted, and its header is not complete or it is shorter than its length
/// field says.
pub open spec fn partial_packet(p: Seq<u8>, accepts: spec_fn(u16) -> bool) -> bool {
    &&& p.len() >= 2
    &&& accepts(be_u16_at(p, 0) as u16)
    &&& p.len() < 6 || packet_size_at(p, 0) > p.len()
}

/// Where the packets lie that stand one behind the other from index `from` on.
pub open spec fn bounds(from: int, packets: Seq<Seq<u8>>) -> Seq<(int, int)>
    decreases packets.len(),
{
    if packets.len() == 0 {
        Seq::empty()
    } else {
        seq![(from, from + packets.first().len())] + bounds(
            from + packets.first().len(),
            packets.drop_first(),
        )
    }
}

proof fn lemma_scan_packets(
    before: Seq<u8>,
    packets: Seq<Seq<u8>>,
    partial: Seq<u8>,
    accepts: spec_fn(u16) -> bool,
)
    requires
        forall|i: int| 0 <= i < packets.len() ==> whole_packet(#[trigger] packets[i], accepts),
        partial_packet(partial, accepts),
    ensures
        ({
            let buf = before + joined(packets) + partial;
            let scan = scan_from(buf, accepts, before.len() as int);
            &&& scan.packets == bounds(before.len() as int, packets)
            &&& scan.tail == Some((before.len() + joined(packets).len()) as int)
            &&& packet_bytes(buf, scan.packets) == packets
        }),
    decreases packets.len(),
{
    let buf = before + joined(packets) + partial;
    let at = before.len() as int;
    if packets.len() == 0 {
        assert(joined(packets) =~= Seq::<u8>::empty());
        assert(buf =~= before + partial);
        assert(buf[at] == partial[0]);
        assert(buf[at + 1] == partial[1]);
        assert(be_u16_at(buf, at) == be_u16_at(partial, 0));
        if partial.len() >= 6 {
            assert(buf[at + 4] == partial[4]);
            assert(buf[at + 5] == partial[5]);
            assert(packet_size_at(buf, at) == packet_size_at(partial, 0));
        }
        assert(packet_bytes(buf, scan_from(buf, accepts, at).packets) =~= packets);
    } else {
        let first = packets.first();
        let rest = packets.drop_first();
        assert(whole_packet(packets[0], accepts));
        assert forall|i: int| 0 <= i < rest.len() implies whole_packet(#[trigger] rest[i], accepts) by {
            assert(rest[i] == packets[i + 1]);
        }
        lemma_scan_packets(before + first, rest, partial, accepts);
        assert(buf =~= (before + first) + joined(rest) + partial);
        assert(buf[at] == first[0]);
        assert(buf[at + 1] == first[1]);
        assert(buf[at + 4] == first[4]);
        assert(buf[at + 5] == first[5]);
        assert(be_u16_at(buf, at) == be_u16_at(first, 0));
        assert(packet_size_at(buf, at) == first.len());
        let end = at + first.len();
        let scan = scan_from(buf, accepts, at);
        let tail_scan = scan_from(buf, accepts, end);
        assert(scan.packets == seq![(at, end)] + tail_scan.packets);
        assert(buf.subrange(at, end) =~= first);
        assert(packet_bytes(buf, scan.packets) =~= packets) by {
            let got = packet_bytes(buf, scan.packets);
            assert(got.len() == packets.len());
            assert forall|k: int| 0 <= k < got.len() implies got[k] == packets[k] by {
                if k > 0 {
                    assert(scan.packets[k] == tail_scan.packets[k - 1]);
                    assert(packet_bytes(buf, tail_scan.packets)[k - 1] == rest[k - 1]);
                }
            }
        }
        assert(joined(packets).len() == first.len() + joined(rest).len());
    }
}

/// Tail handling: where whole packets are followed by the start of a packet
/// that goes on behind the end of the buffer, the scan finds exactly the whole
/// packets and, behind them, the start of the packet that goes on.
pub proof fn law_tail_handling(packets: Seq<Seq<u8>>, partial: Seq<u8>, accepts: spec_fn(u16) -> bool)
    requires
        forall|i: int| 0 <= i < packets.len() ==> whole_packet(#[trigger] packets[i], accepts),
        partial_packet(partial, accepts),
    ensures
        ({
            let buf = joined(packets) + partial;
            let scan = scan_from(buf, accepts, 0);
            &&& packet_bytes(buf, scan.packets) == packets
            &&& scan.tail == Some(joined(packets).len() as int)
            &&& buf.subrange(joined(packets).len() as int, buf.len() as int) == partial
        }),
{
    lemma_scan_packets(Seq::empty(), packets, partial, accepts);
    let buf = joined(packets) + partial;
    assert(Seq::<u8>::empty() + joined(packets) + partial =~= buf);
    assert(buf.subrange(joined(packets).len() as int, buf.len() as int) =~= partial);
}

} // verus!
