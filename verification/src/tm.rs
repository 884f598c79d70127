//! PUS telemetry packets.
//!
//! A packet is the CCSDS primary header, a secondary header of seven bytes, a
//! time stamp, the source data and a checksum of two bytes over all of these.
use crate::spacepackets::{
    crc16_ccitt_false, u16_from_be, u16_to_be, ByteConversionError, PacketType, PusError,
    SizeMissmatch, SpHeader,
};
use vstd::prelude::*;

verus! {

/// Length of the secondary header without the time stamp.
pub const PUS_TM_SEC_HEADER_LEN: usize = 7;

/// Length of a packet without time stamp and source data.
pub const PUS_TM_MIN_LEN: usize = 15;

/// The first byte of a PUS C secondary header whose lower half is zero.
pub const PUS_C_MARK: u8 = 0x20;

/// The secondary header of a telemetry packet.
#[derive(Debug, Clone, PartialEq, Eq)]
pub struct PusTmSecondaryHeader {
    pub sc_time_ref_status: u8,
    pub service: u8,
    pub subservice: u8,
    pub msg_counter: u16,
    pub dest_id: u16,
    pub time_stamp: Vec<u8>,
}

impl PusTmSecondaryHeader {
    /// The bytes of the header, time stamp included.
    pub open spec fn bytes(self) -> Seq<u8> {
        seq![(PUS_C_MARK + self.sc_time_ref_status % 16) as u8, self.service, self.subservice]
            + crate::spacepackets::be_bytes_u16(self.msg_counter)
            + crate::spacepackets::be_bytes_u16(self.dest_id) + self.time_stamp@
    }

    pub fn new(service: u8, subservice: u8, msg_counter: u16, dest_id: u16, time_stamp: &[u8]) -> (r:
        Self)
        ensures
            r.sc_time_ref_status == 0,
            r.service == service,
            r.subservice == subservice,
            r.msg_counter == msg_counter,
            r.dest_id == dest_id,
            r.time_stamp@ == time_stamp@,
    {
        PusTmSecondaryHeader {
            sc_time_ref_status: 0,
            service,
            subservice,
            msg_counter,
            dest_id,
            time_stamp: vstd::slice::slice_to_vec(time_stamp),
        }
    }

    /// A header with message counter and destination 0.
    pub fn new_simple(service: u8, subservice: u8, time_stamp: &[u8]) -> (r: Self)
        ensures
            r.sc_time_ref_status == 0,
            r.service == service,
            r.subservice == subservice,
            r.msg_counter == 0,
            r.dest_id == 0,
            r.time_stamp@ == time_stamp@,
    {
        PusTmSecondaryHeader::new(service, subservice, 0, 0, time_stamp)
    }
}

/// A telemetry packet.
#[derive(Debug, Clone, PartialEq, Eq)]
pub struct PusTm {
    pub sp_header: SpHeader,
    pub sec_header: PusTmSecondaryHeader,
    pub source_data: Vec<u8>,
}

/// What a telemetry packet says, without its buffers: the view of [`PusTm`].
pub struct TmModel {
    pub sp_header: SpHeader,
    pub sc_time_ref_status: u8,
    pub service: u8,
    pub subservice: u8,
    pub msg_counter: u16,
    pub dest_id: u16,
    pub time_stamp: Seq<u8>,
    pub source_data: Seq<u8>,
}

impl TmModel {
    /// The length of the packet in bytes.
    pub open spec fn len_packed(self) -> nat {
        PUS_TM_MIN_LEN as nat + self.time_stamp.len() + self.source_data.len()
    }

    /// The packet without its checksum.
    pub open spec fn body(self) -> Seq<u8> {
        self.sp_header.bytes() + seq![
            (PUS_C_MARK + self.sc_time_ref_status % 16) as u8,
            self.service,
            self.subservice,
        ] + crate::spacepackets::be_bytes_u16(self.msg_counter)
            + crate::spacepackets::be_bytes_u16(self.dest_id) + self.time_stamp + self.source_data
    }

    /// The packet as it is sent.
    pub open spec fn bytes(self) -> Seq<u8> {
        self.body() + crate::spacepackets::be_bytes_u16(crate::spacepackets::crc16(self.body()))
    }

    /// The data length field that fits the packet, cut to 16 bits.
    pub open spec fn fitting_data_len(self) -> u16 {
        ((self.len_packed() - 7) % 0x1_0000) as u16
    }
}

impl View for PusTm {
    type V = TmModel;

    open spec fn view(&self) -> TmModel {
        TmModel {
            sp_header: self.sp_header,
            sc_time_ref_status: self.sec_header.sc_time_ref_status,
            service: self.sec_header.service,
            subservice: self.sec_header.subservice,
            msg_counter: self.sec_header.msg_counter,
            dest_id: self.sec_header.dest_id,
            time_stamp: self.sec_header.time_stamp@,
            source_data: self.source_data@,
        }
    }
}

/// The unsegmented telemetry packet with sequence count 0 that the reporters
/// of the library build: the given fields, and a data length field that fits.
pub open spec fn report_tm(
    apid: u16,
    service: u8,
    subservice: u8,
    msg_count: u16,
    dest_id: u16,
    time_stamp: Seq<u8>,
    source_data: Seq<u8>,
) -> TmModel {
    let without_len = TmModel {
        sp_header: SpHeader {
            version: 0,
            packet_id: crate::spacepackets::PacketId { ptype: PacketType::Tm, sec_header_flag: true, apid },
            psc: crate::spacepackets::PacketSequenceCtrl {
                seq_flags: crate::spacepackets::SequenceFlags::Unsegmented,
                seq_count: 0,
            },
            data_len: 0,
        },
        sc_time_ref_status: 0,
        service,
        subservice,
        msg_counter: msg_count,
        dest_id,
        time_stamp,
        source_data,
    };
    TmModel {
        sp_header: SpHeader { data_len: without_len.fitting_data_len(), ..without_len.sp_header },
        ..without_len
    }
}

/// What a parse of `buf` with a time stamp of `timestamp_len` bytes ends in.
pub open spec fn parse_tm(buf: Seq<u8>, timestamp_len: nat) -> Result<TmModel, PusError> {
    if buf.len() < PUS_TM_MIN_LEN + timestamp_len {
        Err(PusError::RawDataTooShort(buf.len() as usize))
    } else {
        let sp_header = SpHeader::of_bytes(buf.subrange(0, 6));
        let total = sp_header.total_len_spec() as int;
        if buf.len() < total || total < PUS_TM_MIN_LEN + timestamp_len {
            Err(PusError::RawDataTooShort(buf.len() as usize))
        } else if buf[6] / 16 != 2 {
            Err(PusError::VersionNotSupported(buf[6] / 16))
        } else if crate::spacepackets::crc16(buf.subrange(0, total - 2))
            != crate::spacepackets::u16_of_be(buf.subrange(total - 2, total)) {
            Err(PusError::IncorrectCrc(crate::spacepackets::u16_of_be(buf.subrange(total - 2, total))))
        } else {
            Ok(
                TmModel {
                    sp_header,
                    sc_time_ref_status: buf[6] % 16,
                    service: buf[7],
                    subservice: buf[8],
                    msg_counter: crate::spacepackets::u16_of_be(buf.subrange(9, 11)),
                    dest_id: crate::spacepackets::u16_of_be(buf.subrange(11, 13)),
                    time_stamp: buf.subrange(13, 13 + timestamp_len as int),
                    source_data: buf.subrange(13 + timestamp_len as int, total - 2),
                },
            )
        }
    }
}

fn append(vec: &mut Vec<u8>, bytes: &[u8])
    ensures
        final(vec)@ == old(vec)@ + bytes@,
{
    let mut k: usize = 0;
    while k < bytes.len()
        invariant
            k <= bytes@.len(),
            vec@ == old(vec)@ + bytes@.subrange(0, k as int),
        decreases bytes@.len() - k,
    {
        vec.push(bytes[k]);
        assert(bytes@.subrange(0, k as int + 1) =~= bytes@.subrange(0, k as int).push(bytes@[k as int]));
        assert(vec@ =~= old(vec)@ + bytes@.subrange(0, k as int + 1));
        k += 1;
    }
    assert(bytes@.subrange(0, bytes@.len() as int) =~= bytes@);
}

fn copy_of(buf: &[u8], from: usize, to: usize) -> (r: Vec<u8>)
    requires
        from <= to <= buf@.len(),
    ensures
        r@ == buf@.subrange(from as int, to as int),
{
    vstd::slice::slice_to_vec(vstd::slice::slice_subrange(buf, from, to))
}

impl PusTm {
    /// A packet that is not longer than a `usize` can say.
    pub open spec fn wf(&self) -> bool {
        self@.len_packed() <= usize::MAX
    }

    /// Builds a packet. The header is marked as telemetry with a secondary
    /// header; with `set_ccsds_len` its data length field is set to fit the
    /// packet. `sp_header` is updated in the same way.
    pub fn new(
        sp_header: &mut SpHeader,
        sec_header: PusTmSecondaryHeader,
        source_data: Option<&[u8]>,
        set_ccsds_len: bool,
    ) -> (r: PusTm)
        requires
            PUS_TM_MIN_LEN + sec_header.time_stamp@.len() + (match source_data {
                Some(d) => d@.len(),
                None => 0,
            }) <= usize::MAX,
        ensures
            r.wf(),
            r.sec_header == sec_header,
            r.source_data@ == (match source_data {
                Some(d) => d@,
                None => Seq::<u8>::empty(),
            }),
            r.sp_header == *final(sp_header),
            r.sp_header.version == old(sp_header).version,
            r.sp_header.psc == old(sp_header).psc,
            r.sp_header.packet_id.ptype == PacketType::Tm,
            r.sp_header.packet_id.sec_header_flag,
            r.sp_header.packet_id.apid == old(sp_header).packet_id.apid,
            r.sp_header.data_len == (if set_ccsds_len {
                r@.fitting_data_len()
            } else {
                old(sp_header).data_len
            }),
    {
        sp_header.packet_id.ptype = PacketType::Tm;
        sp_header.packet_id.sec_header_flag = true;
        let data: Vec<u8> = match source_data {
            Some(d) => vstd::slice::slice_to_vec(d),
            None => Vec::new(),
        };
        let mut tm = PusTm { sp_header: *sp_header, sec_header, source_data: data };
        if set_ccsds_len {
            let len = tm.len_packed();
            sp_header.data_len = ((len - 7) % 0x1_0000) as u16;
            tm.sp_header.data_len = sp_header.data_len;
        }
        tm
    }

    /// The length of the packet in bytes.
    pub fn len_packed(&self) -> (r: usize)
        requires
            self.wf(),
        ensures
            r == self@.len_packed(),
    {
        PUS_TM_MIN_LEN + self.sec_header.time_stamp.len() + self.source_data.len()
    }

    pub fn service(&self) -> (r: u8)
        ensures
            r == self@.service,
    {
        self.sec_header.service
    }

    pub fn subservice(&self) -> (r: u8)
        ensures
            r == self@.subservice,
    {
        self.sec_header.subservice
    }

    pub fn msg_counter(&self) -> (r: u16)
        ensures
            r == self@.msg_counter,
    {
        self.sec_header.msg_counter
    }

    pub fn dest_id(&self) -> (r: u16)
        ensures
            r == self@.dest_id,
    {
        self.sec_header.dest_id
    }

    pub fn apid(&self) -> (r: u16)
        ensures
            r == self@.sp_header.packet_id.apid,
    {
        self.sp_header.packet_id.apid
    }

    pub fn time_stamp(&self) -> (r: &[u8])
        ensures
            r@ == self@.time_stamp,
    {
        self.sec_header.time_stamp.as_slice()
    }

    /// The source data; `None` where there is none.
    pub fn source_data(&self) -> (r: Option<&[u8]>)
        ensures
            match r {
                Some(d) => d@ == self@.source_data && d@.len() > 0,
                None => self@.source_data.len() == 0,
            },
    {
        if self.source_data.len() == 0 {
            None
        } else {
            Some(self.source_data.as_slice())
        }
    }

    /// The bytes of the packet, checksum included.
    pub fn to_vec(&self) -> (r: Vec<u8>)
        ensures
            r@ == self@.bytes(),
            r@.len() == self@.len_packed(),
    {
        let mut out: Vec<u8> = Vec::new();
        let mut head = [0u8; 6];
        let written = self.sp_header.write_to_be_bytes(&mut head);
        assert(head@ =~= self.sp_header.bytes());
        append(&mut out, &head);
        let first: u8 = PUS_C_MARK + self.sec_header.sc_time_ref_status % 16;
        let fixed = [first, self.sec_header.service, self.sec_header.subservice];
        append(&mut out, &fixed);
        let counter = u16_to_be(self.sec_header.msg_counter);
        append(&mut out, &counter);
        let dest = u16_to_be(self.sec_header.dest_id);
        append(&mut out, &dest);
        append(&mut out, self.sec_header.time_stamp.as_slice());
        append(&mut out, self.source_data.as_slice());
        assert(out@ =~= self@.body());
        let crc = u16_to_be(crc16_ccitt_false(out.as_slice()));
        append(&mut out, &crc);
        out
    }

    /// Writes the packet to the front of `buf` and returns its length. A
    /// buffer that is too short is left as it is.
    pub fn write_to_bytes(&self, buf: &mut [u8]) -> (r: Result<usize, PusError>)
        ensures
            final(buf)@.len() == old(buf)@.len(),
            match r {
                Ok(n) => {
                    &&& n == self@.len_packed()
                    &&& n <= old(buf)@.len()
                    &&& final(buf)@ == self@.bytes() + old(buf)@.subrange(
                        n as int,
                        old(buf)@.len() as int,
                    )
                },
                Err(e) => {
                    &&& self@.len_packed() > old(buf)@.len()
                    &&& final(buf)@ == old(buf)@
                    &&& e == PusError::ByteConversion(
                        ByteConversionError::ToSliceTooSmall(
                            SizeMissmatch {
                                found: old(buf)@.len() as usize,
                                expected: self@.len_packed() as usize,
                            },
                        ),
                    )
                },
            },
    {
        let bytes = self.to_vec();
        match crate::ecss::write_front(buf, bytes.as_slice()) {
            Ok(()) => Ok(bytes.len()),
            Err(e) => Err(PusError::ByteConversion(e)),
        }
    }

    /// Appends the packet to `vec` and returns its length.
    pub fn append_to_vec(&self, vec: &mut Vec<u8>) -> (r: usize)
        ensures
            final(vec)@ == old(vec)@ + self@.bytes(),
            r == self@.len_packed(),
    {
        let bytes = self.to_vec();
        append(vec, bytes.as_slice());
        bytes.len()
    }

    /// Reads a packet whose time stamp has `timestamp_len` bytes from the front
    /// of `buf`. Returns the packet and its length.
    pub fn from_bytes(buf: &[u8], timestamp_len: usize) -> (r: Result<(PusTm, usize), PusError>)
        ensures
            match (r, parse_tm(buf@, timestamp_len as nat)) {
                (Ok((tm, n)), Ok(model)) => tm@ == model && n == model.sp_header.total_len_spec()
                    && n == model.len_packed() && tm.wf(),
                (Err(e), Err(expected)) => e == expected,
                _ => false,
            },
    {
        if timestamp_len > usize::MAX - PUS_TM_MIN_LEN || buf.len() < PUS_TM_MIN_LEN + timestamp_len {
            return Err(PusError::RawDataTooShort(buf.len()));
        }
        let sp_header = match SpHeader::from_be_bytes(buf) {
            Ok(h) => h,
            Err(_) => {
                return Err(PusError::RawDataTooShort(buf.len()));
            },
        };
        let total = sp_header.total_len();
        if buf.len() < total || total < PUS_TM_MIN_LEN + timestamp_len {
            return Err(PusError::RawDataTooShort(buf.len()));
        }
        if buf[6] / 16 != 2 {
            return Err(PusError::VersionNotSupported(buf[6] / 16));
        }
        let crc = crc16_ccitt_false(vstd::slice::slice_subrange(buf, 0, total - 2));
        let stored = u16_from_be(buf, total - 2);
        if crc != stored {
            return Err(PusError::IncorrectCrc(stored));
        }
        let tm = PusTm {
            sp_header,
            sec_header: PusTmSecondaryHeader {
                sc_time_ref_status: buf[6] % 16,
                service: buf[7],
                subservice: buf[8],
                msg_counter: u16_from_be(buf, 9),
                dest_id: u16_from_be(buf, 11),
                time_stamp: copy_of(buf, 13, 13 + timestamp_len),
            },
            source_data: copy_of(buf, 13 + timestamp_len, total - 2),
        };
        Ok((tm, total))
    }
}

} // verus!
