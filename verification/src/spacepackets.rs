//! The parts of the CCSDS space packet and ECSS PUS formats that the rest of
//! the library works with: the primary header, enumerated fields, big-endian
//! words, the checksum and the errors of byte conversion.
use vstd::prelude::*;

verus! {

/// Length of the CCSDS primary header.
pub const CCSDS_HEADER_LEN: usize = 6;

/// Largest application process identifier, 11 bits.
pub const MAX_APID: u16 = 0x7FF;

/// Largest sequence count, 14 bits.
pub const MAX_SEQ_COUNT: u16 = 0x3FFF;

/// A buffer had another size than was needed.
#[derive(Clone, Copy, Debug, PartialEq, Eq, Structural)]
pub struct SizeMissmatch {
    pub found: usize,
    pub expected: usize,
}

/// Why bytes could not be written or read.
#[derive(Clone, Copy, Debug, PartialEq, Eq, Structural)]
pub enum ByteConversionError {
    /// The buffer to write to is too small.
    ToSliceTooSmall(SizeMissmatch),
    /// The buffer to read from is too small.
    FromSliceTooSmall(SizeMissmatch),
}

/// Errors of the PUS packet format.
#[derive(Clone, Copy, Debug, PartialEq, Eq, Structural)]
pub enum PusError {
    /// The packet does not say PUS C.
    VersionNotSupported(u8),
    /// The checksum at the end of the packet is not the checksum of the packet.
    IncorrectCrc(u16),
    /// The raw data is shorter than the packet it should hold.
    RawDataTooShort(usize),
    /// There is no raw data to take a checksum from.
    NoRawData,
    /// The checksum was not calculated before the packet was written.
    CrcCalculationMissing,
    ByteConversion(ByteConversionError),
}

/// The big-endian bytes of a 16-bit word.
pub open spec fn be_bytes_u16(x: u16) -> Seq<u8> {
    seq![(x / 256) as u8, (x % 256) as u8]
}

/// The big-endian bytes of a 32-bit word.
pub open spec fn be_bytes_u32(x: u32) -> Seq<u8> {
    seq![
        (x / 0x100_0000) as u8,
        (x / 0x1_0000 % 256) as u8,
        (x / 0x100 % 256) as u8,
        (x % 256) as u8,
    ]
}

/// The big-endian bytes of a 64-bit word.
pub open spec fn be_bytes_u64(x: u64) -> Seq<u8> {
    be_bytes_u32((x / 0x1_0000_0000) as u32) + be_bytes_u32((x % 0x1_0000_0000) as u32)
}

/// The 16-bit word that two big-endian bytes stand for.
pub open spec fn u16_of_be(b: Seq<u8>) -> u16 {
    (b[0] as int * 256 + b[1] as int) as u16
}

/// The 32-bit word that four big-endian bytes stand for.
pub open spec fn u32_of_be(b: Seq<u8>) -> u32 {
    (b[0] as int * 0x100_0000 + b[1] as int * 0x1_0000 + b[2] as int * 0x100 + b[3] as int) as u32
}

/// Reading back what was written gives the word again.
pub proof fn lemma_be_round_trip(x16: u16, x32: u32)
    ensures
        u16_of_be(be_bytes_u16(x16)) == x16,
        u32_of_be(be_bytes_u32(x32)) == x32,
        be_bytes_u16(x16).len() == 2,
        be_bytes_u32(x32).len() == 4,
{
}

pub fn u16_to_be(x: u16) -> (r: [u8; 2])
    ensures
        r@ == be_bytes_u16(x),
{
    let r = [(x / 256) as u8, (x % 256) as u8];
    assert(r@ =~= be_bytes_u16(x));
    r
}

pub fn u32_to_be(x: u32) -> (r: [u8; 4])
    ensures
        r@ == be_bytes_u32(x),
{
    let r = [
        (x / 0x100_0000) as u8,
        (x / 0x1_0000 % 256) as u8,
        (x / 0x100 % 256) as u8,
        (x % 256) as u8,
    ];
    assert(r@ =~= be_bytes_u32(x));
    r
}

/// Reads the 16-bit big-endian word at index `at`.
pub fn u16_from_be(buf: &[u8], at: usize) -> (r: u16)
    requires
        at + 2 <= buf@.len(),
    ensures
        r == u16_of_be(buf@.subrange(at as int, at + 2)),
{
    let hi: u16 = buf[at] as u16;
    let lo: u16 = buf[at + 1] as u16;
    hi * 256 + lo
}

/// Reads the 32-bit big-endian word at index `at`.
pub fn u32_from_be(buf: &[u8], at: usize) -> (r: u32)
    requires
        at + 4 <= buf@.len(),
    ensures
        r == u32_of_be(buf@.subrange(at as int, at + 4)),
{
    let b0: u32 = buf[at] as u32;
    let b1: u32 = buf[at + 1] as u32;
    let b2: u32 = buf[at + 2] as u32;
    let b3: u32 = buf[at + 3] as u32;
    b0 * 0x100_0000 + b1 * 0x1_0000 + b2 * 0x100 + b3
}

/// Copies `src` into `dest` from index `at` on.
pub fn copy_into(dest: &mut [u8], at: usize, src: &[u8])
    requires
        at + src@.len() <= old(dest)@.len(),
    ensures
        final(dest)@ == old(dest)@.subrange(0, at as int) + src@ + old(dest)@.subrange(
            at + src@.len(),
            old(dest)@.len() as int,
        ),
{
    let n = src.len();
    let len = dest.len();
    let mut k: usize = 0;
    while k < n
        invariant
            k <= n,
            n == src@.len(),
            len == dest@.len(),
            len == old(dest)@.len(),
            at + n <= len,
            forall|m: int| 0 <= m < at ==> dest@[m] == old(dest)@[m],
            forall|m: int| at + k <= m < len ==> dest@[m] == old(dest)@[m],
            forall|m: int| 0 <= m < k ==> dest@[at + m] == src@[m],
        decreases n - k,
    {
        dest[at + k] = src[k];
        k += 1;
    }
    assert(dest@ =~= old(dest)@.subrange(0, at as int) + src@ + old(dest)@.subrange(
        at + src@.len(),
        old(dest)@.len() as int,
    ));
}

/// The CRC-16 of `data` with polynomial 0x1021 and start value 0xFFFF, as the
/// `crc` crate computes it for its algorithm `CRC_16_IBM_3740`.
pub uninterp spec fn crc16(data: Seq<u8>) -> u16;

/// Wrapper of `crc::Crc::<u16>::checksum` for the algorithm `CRC_16_IBM_3740`.
/// The checksum depends on the bytes alone.
#[verifier::external_body]
pub(crate) fn crc16_ccitt_false(data: &[u8]) -> (r: u16)
    ensures
        r == crc16(data@),
{
    crc::Crc::<u16>::new(&crc::CRC_16_IBM_3740).checksum(data)
}

/// Whether a packet carries telemetry or a telecommand.
#[derive(Clone, Copy, Debug, PartialEq, Eq, Hash, Structural)]
pub enum PacketType {
    Tm,
    Tc,
}

/// How a packet relates to the packets around it.
#[derive(Clone, Copy, Debug, PartialEq, Eq, Hash, Structural)]
pub enum SequenceFlags {
    ContinuationSegment,
    FirstSegment,
    LastSegment,
    Unsegmented,
}

impl SequenceFlags {
    pub open spec fn code(self) -> u16 {
        match self {
            SequenceFlags::ContinuationSegment => 0,
            SequenceFlags::FirstSegment => 1,
            SequenceFlags::LastSegment => 2,
            SequenceFlags::Unsegmented => 3,
        }
    }

    pub open spec fn of_code(c: u16) -> SequenceFlags {
        if c % 4 == 0 {
            SequenceFlags::ContinuationSegment
        } else if c % 4 == 1 {
            SequenceFlags::FirstSegment
        } else if c % 4 == 2 {
            SequenceFlags::LastSegment
        } else {
            SequenceFlags::Unsegmented
        }
    }
}

/// The packet identification: type, secondary header flag and APID.
#[derive(Clone, Copy, Debug, PartialEq, Eq, Hash, Structural)]
pub struct PacketId {
    pub ptype: PacketType,
    pub sec_header_flag: bool,
    pub apid: u16,
}

impl PacketId {
    /// The identification as the 13 low bits of the first header word.
    pub open spec fn raw_spec(self) -> u16 {
        ((if self.ptype == PacketType::Tc {
            0x1000int
        } else {
            0
        }) + (if self.sec_header_flag {
            0x800int
        } else {
            0
        }) + (self.apid % 0x800) as int) as u16
    }

    /// The identification that the 13 low bits of `raw` stand for.
    pub open spec fn of_raw(raw: u16) -> PacketId {
        PacketId {
            ptype: if raw / 0x1000 % 2 == 1 {
                PacketType::Tc
            } else {
                PacketType::Tm
            },
            sec_header_flag: raw / 0x800 % 2 == 1,
            apid: raw % 0x800,
        }
    }

    /// `None` where `apid` has more than 11 bits.
    pub fn new(ptype: PacketType, sec_header_flag: bool, apid: u16) -> (r: Option<PacketId>)
        ensures
            r == (if apid <= MAX_APID {
                Some(PacketId { ptype, sec_header_flag, apid })
            } else {
                None
            }),
    {
        if apid > MAX_APID {
            return None;
        }
        Some(PacketId { ptype, sec_header_flag, apid })
    }

    pub fn raw(&self) -> (r: u16)
        ensures
            r == self.raw_spec(),
    {
        let t: u16 = match self.ptype {
            PacketType::Tc => 0x1000,
            PacketType::Tm => 0,
        };
        let s: u16 = if self.sec_header_flag {
            0x800
        } else {
            0
        };
        t + s + self.apid % 0x800
    }

    pub fn from_raw(raw: u16) -> (r: PacketId)
        ensures
            r == PacketId::of_raw(raw),
    {
        PacketId {
            ptype: if raw / 0x1000 % 2 == 1 {
                PacketType::Tc
            } else {
                PacketType::Tm
            },
            sec_header_flag: raw / 0x800 % 2 == 1,
            apid: raw % 0x800,
        }
    }
}

/// The packet sequence control: sequence flags and sequence count.
#[derive(Clone, Copy, Debug, PartialEq, Eq, Hash, Structural)]
pub struct PacketSequenceCtrl {
    pub seq_flags: SequenceFlags,
    pub seq_count: u16,
}

impl PacketSequenceCtrl {
    pub open spec fn raw_spec(self) -> u16 {
        (self.seq_flags.code() * 0x4000 + self.seq_count % 0x4000) as u16
    }

    pub open spec fn of_raw(raw: u16) -> PacketSequenceCtrl {
        PacketSequenceCtrl { seq_flags: SequenceFlags::of_code(raw / 0x4000), seq_count: raw % 0x4000 }
    }

    /// `None` where `seq_count` has more than 14 bits.
    pub fn new(seq_flags: SequenceFlags, seq_count: u16) -> (r: Option<PacketSequenceCtrl>)
        ensures
            r == (if seq_count <= MAX_SEQ_COUNT {
                Some(PacketSequenceCtrl { seq_flags, seq_count })
            } else {
                None
            }),
    {
        if seq_count > MAX_SEQ_COUNT {
            return None;
        }
        Some(PacketSequenceCtrl { seq_flags, seq_count })
    }

    pub fn raw(&self) -> (r: u16)
        ensures
            r == self.raw_spec(),
    {
        let f: u16 = match self.seq_flags {
            SequenceFlags::ContinuationSegment => 0,
            SequenceFlags::FirstSegment => 1,
            SequenceFlags::LastSegment => 2,
            SequenceFlags::Unsegmented => 3,
        };
        f * 0x4000 + self.seq_count % 0x4000
    }

    pub fn from_raw(raw: u16) -> (r: PacketSequenceCtrl)
        ensures
            r == PacketSequenceCtrl::of_raw(raw),
    {
        let c = raw / 0x4000;
        let seq_flags = if c % 4 == 0 {
            SequenceFlags::ContinuationSegment
        } else if c % 4 == 1 {
            SequenceFlags::FirstSegment
        } else if c % 4 == 2 {
            SequenceFlags::LastSegment
        } else {
            SequenceFlags::Unsegmented
        };
        PacketSequenceCtrl { seq_flags, seq_count: raw % 0x4000 }
    }
}

/// Raw and structured form of the two identifying words agree.
pub proof fn lemma_id_round_trip(id: PacketId, psc: PacketSequenceCtrl)
    requires
        id.apid <= MAX_APID,
        psc.seq_count <= MAX_SEQ_COUNT,
    ensures
        PacketId::of_raw(id.raw_spec()) == id,
        PacketSequenceCtrl::of_raw(psc.raw_spec()) == psc,
        id.raw_spec() < 0x2000,
{
}

/// The CCSDS primary header.
#[derive(Clone, Copy, Debug, PartialEq, Eq, Structural)]
pub struct SpHeader {
    pub version: u8,
    pub packet_id: PacketId,
    pub psc: PacketSequenceCtrl,
    pub data_len: u16,
}

impl SpHeader {
    /// The six bytes of the header.
    pub open spec fn bytes(self) -> Seq<u8> {
        be_bytes_u16(((self.version % 8) as int * 0x2000 + self.packet_id.raw_spec()) as u16)
            + be_bytes_u16(self.psc.raw_spec()) + be_bytes_u16(self.data_len)
    }

    /// The header that six bytes stand for.
    pub open spec fn of_bytes(b: Seq<u8>) -> SpHeader {
        SpHeader {
            version: (u16_of_be(b.subrange(0, 2)) / 0x2000) as u8,
            packet_id: PacketId::of_raw(u16_of_be(b.subrange(0, 2))),
            psc: PacketSequenceCtrl::of_raw(u16_of_be(b.subrange(2, 4))),
            data_len: u16_of_be(b.subrange(4, 6)),
        }
    }

    /// The length of the whole packet that the header announces.
    pub open spec fn total_len_spec(self) -> nat {
        (self.data_len + CCSDS_HEADER_LEN + 1) as nat
    }

    /// The header fields are in their ranges.
    pub open spec fn wf(self) -> bool {
        &&& self.version < 8
        &&& self.packet_id.apid <= MAX_APID
        &&& self.psc.seq_count <= MAX_SEQ_COUNT
    }

    /// A header of the given type, unsegmented and with a secondary header;
    /// `None` where the APID or the sequence count is out of range.
    pub fn new(ptype: PacketType, apid: u16, seq_count: u16, data_len: u16) -> (r: Option<SpHeader>)
        ensures
            r == (if apid <= MAX_APID && seq_count <= MAX_SEQ_COUNT {
                Some(
                    SpHeader {
                        version: 0,
                        packet_id: PacketId { ptype, sec_header_flag: true, apid },
                        psc: PacketSequenceCtrl { seq_flags: SequenceFlags::Unsegmented, seq_count },
                        data_len,
                    },
                )
            } else {
                None
            }),
    {
        if apid > MAX_APID || seq_count > MAX_SEQ_COUNT {
            return None;
        }
        Some(
            SpHeader {
                version: 0,
                packet_id: PacketId { ptype, sec_header_flag: true, apid },
                psc: PacketSequenceCtrl { seq_flags: SequenceFlags::Unsegmented, seq_count },
                data_len,
            },
        )
    }

    /// A telemetry header, see [`SpHeader::new`].
    pub fn tm(apid: u16, seq_count: u16, data_len: u16) -> (r: Option<SpHeader>)
        ensures
            r.is_some() == (apid <= MAX_APID && seq_count <= MAX_SEQ_COUNT),
            r.is_some() ==> r.unwrap() == (SpHeader {
                version: 0,
                packet_id: PacketId { ptype: PacketType::Tm, sec_header_flag: true, apid },
                psc: PacketSequenceCtrl { seq_flags: SequenceFlags::Unsegmented, seq_count },
                data_len,
            }),
    {
        SpHeader::new(PacketType::Tm, apid, seq_count, data_len)
    }

    /// A telecommand header, see [`SpHeader::new`].
    pub fn tc(apid: u16, seq_count: u16, data_len: u16) -> (r: Option<SpHeader>)
        ensures
            r.is_some() == (apid <= MAX_APID && seq_count <= MAX_SEQ_COUNT),
            r.is_some() ==> r.unwrap() == (SpHeader {
                version: 0,
                packet_id: PacketId { ptype: PacketType::Tc, sec_header_flag: true, apid },
                psc: PacketSequenceCtrl { seq_flags: SequenceFlags::Unsegmented, seq_count },
                data_len,
            }),
    {
        SpHeader::new(PacketType::Tc, apid, seq_count, data_len)
    }

    pub fn ccsds_version(&self) -> (r: u8)
        ensures
            r == self.version,
    {
        self.version
    }

    pub fn packet_id(&self) -> (r: PacketId)
        ensures
            r == self.packet_id,
    {
        self.packet_id
    }

    pub fn psc(&self) -> (r: PacketSequenceCtrl)
        ensures
            r == self.psc,
    {
        self.psc
    }

    pub fn apid(&self) -> (r: u16)
        ensures
            r == self.packet_id.apid,
    {
        self.packet_id.apid
    }

    pub fn seq_count(&self) -> (r: u16)
        ensures
            r == self.psc.seq_count,
    {
        self.psc.seq_count
    }

    pub fn data_len(&self) -> (r: u16)
        ensures
            r == self.data_len,
    {
        self.data_len
    }

    /// Sets the APID; an APID of more than 11 bits is refused.
    pub fn set_apid(&mut self, apid: u16) -> (r: bool)
        ensures
            r == (apid <= MAX_APID),
            *final(self) == (if r {
                SpHeader { packet_id: PacketId { apid, ..old(self).packet_id }, ..*old(self) }
            } else {
                *old(self)
            }),
    {
        if apid > MAX_APID {
            return false;
        }
        self.packet_id.apid = apid;
        true
    }

    /// Sets the sequence count; a count of more than 14 bits is refused.
    pub fn set_seq_count(&mut self, seq_count: u16) -> (r: bool)
        ensures
            r == (seq_count <= MAX_SEQ_COUNT),
            *final(self) == (if r {
                SpHeader { psc: PacketSequenceCtrl { seq_count, ..old(self).psc }, ..*old(self) }
            } else {
                *old(self)
            }),
    {
        if seq_count > MAX_SEQ_COUNT {
            return false;
        }
        self.psc.seq_count = seq_count;
        true
    }

    /// The length of the whole packet: the data length field plus 7.
    pub fn total_len(&self) -> (r: usize)
        ensures
            r == self.total_len_spec(),
    {
        self.data_len as usize + CCSDS_HEADER_LEN + 1
    }

    /// Writes the six header bytes to the front of `buf`.
    pub fn write_to_be_bytes(&self, buf: &mut [u8]) -> (r: Result<(), ByteConversionError>)
        ensures
            final(buf)@.len() == old(buf)@.len(),
            match r {
                Ok(()) => old(buf)@.len() >= 6 && final(buf)@ == self.bytes() + old(buf)@.subrange(
                    6,
                    old(buf)@.len() as int,
                ),
                Err(e) => old(buf)@.len() < 6 && final(buf)@ == old(buf)@ && e
                    == ByteConversionError::ToSliceTooSmall(
                    SizeMissmatch { found: old(buf)@.len() as usize, expected: 6 },
                ),
            },
    {
        if buf.len() < 6 {
            return Err(
                ByteConversionError::ToSliceTooSmall(SizeMissmatch { found: buf.len(), expected: 6 }),
            );
        }
        let first: u16 = (self.version % 8) as u16 * 0x2000 + self.packet_id.raw();
        let w0 = u16_to_be(first);
        let w1 = u16_to_be(self.psc.raw());
        let w2 = u16_to_be(self.data_len);
        buf[0] = w0[0];
        buf[1] = w0[1];
        buf[2] = w1[0];
        buf[3] = w1[1];
        buf[4] = w2[0];
        buf[5] = w2[1];
        assert(buf@ =~= self.bytes() + old(buf)@.subrange(6, old(buf)@.len() as int));
        Ok(())
    }

    /// Reads a header from the first six bytes of `buf`.
    pub fn from_be_bytes(buf: &[u8]) -> (r: Result<SpHeader, ByteConversionError>)
        ensures
            match r {
                Ok(h) => buf@.len() >= 6 && h == SpHeader::of_bytes(buf@.subrange(0, 6)) && h.wf(),
                Err(e) => buf@.len() < 6 && e == ByteConversionError::FromSliceTooSmall(
                    SizeMissmatch { found: buf@.len() as usize, expected: 6 },
                ),
            },
    {
        if buf.len() < 6 {
            return Err(
                ByteConversionError::FromSliceTooSmall(SizeMissmatch { found: buf.len(), expected: 6 }),
            );
        }
        let w0 = u16_from_be(buf, 0);
        let w1 = u16_from_be(buf, 2);
        let w2 = u16_from_be(buf, 4);
        proof {
            let b = buf@.subrange(0, 6);
            assert(b.subrange(0, 2) =~= buf@.subrange(0, 2));
            assert(b.subrange(2, 4) =~= buf@.subrange(2, 4));
            assert(b.subrange(4, 6) =~= buf@.subrange(4, 6));
        }
        Ok(
            SpHeader {
                version: (w0 / 0x2000) as u8,
                packet_id: PacketId::from_raw(w0),
                psc: PacketSequenceCtrl::from_raw(w1),
                data_len: w2,
            },
        )
    }
}

/// A header that was written is read back as it was.
pub proof fn law_header_round_trip(h: SpHeader)
    requires
        h.wf(),
    ensures
        h.bytes().len() == 6,
        SpHeader::of_bytes(h.bytes()) == h,
{
    let b = h.bytes();
    let w0 = ((h.version % 8) as int * 0x2000 + h.packet_id.raw_spec()) as u16;
    assert(b.subrange(0, 2) =~= be_bytes_u16(w0));
    assert(b.subrange(2, 4) =~= be_bytes_u16(h.psc.raw_spec()));
    assert(b.subrange(4, 6) =~= be_bytes_u16(h.data_len));
    lemma_be_round_trip(w0, 0);
    lemma_be_round_trip(h.psc.raw_spec(), 0);
    lemma_be_round_trip(h.data_len, 0);
    lemma_id_round_trip(h.packet_id, h.psc);
}

/// Moves the bytes from `from` on to the front of `buf`.
pub fn move_to_front(buf: &mut [u8], from: usize)
    requires
        from <= old(buf)@.len(),
    ensures
        final(buf)@.len() == old(buf)@.len(),
        final(buf)@.subrange(0, old(buf)@.len() - from) == old(buf)@.subrange(
            from as int,
            old(buf)@.len() as int,
        ),
{
    let len = buf.len();
    let n = len - from;
    let mut k: usize = 0;
    while k < n
        invariant
            k <= n,
            n + from == len,
            len == buf@.len(),
            buf@.len() == old(buf)@.len(),
            forall|m: int| 0 <= m < k ==> buf@[m] == old(buf)@[m + from],
            forall|m: int| k + from <= m < buf@.len() ==> buf@[m] == old(buf)@[m],
        decreases n - k,
    {
        buf[k] = buf[k + from];
        k += 1;
    }
    assert(buf@.subrange(0, n as int) =~= old(buf)@.subrange(from as int, old(buf)@.len() as int));
}

} // verus!
