//! PUS telecommand packets.
//!
//! A packet is the CCSDS primary header, a secondary header of five bytes, the
//! application data and a checksum of two bytes over all of these.
use crate::spacepackets::{
    crc16_ccitt_false, u16_from_be, u16_to_be, PacketId, PacketSequenceCtrl, PacketType, PusError,
    SpHeader,
};
use vstd::prelude::*;

verus! {

/// Length of the secondary header of a telecommand.
pub const PUC_TC_SECONDARY_HEADER_LEN: usize = 5;

/// Length of a telecommand without application data.
pub const PUS_TC_MIN_LEN_WITHOUT_APP_DATA: usize = 13;

/// All four acknowledgement flags: acceptance, start, progress and completion.
pub const ACK_ALL: u8 = 0b1111;

/// The version of the packet utilisation standard that a packet follows.
#[derive(Clone, Copy, Debug, PartialEq, Eq, Structural)]
pub enum PusVersion {
    EsaPus,
    PusA,
    PusC,
    Invalid,
}

/// What the secondary header of a telecommand says.
pub trait PusTcSecondaryHeader {
    open spec fn header_fields(&self) -> PusTcDataFieldHeader {
        arbitrary()
    }

    fn ack_flags(&self) -> (r: u8)
        ensures
            r == self.header_fields().ack,
    ;

    fn service(&self) -> (r: u8)
        ensures
            r == self.header_fields().service,
    ;

    fn subservice(&self) -> (r: u8)
        ensures
            r == self.header_fields().subservice,
    ;

    fn source_id(&self) -> (r: u16)
        ensures
            r == self.header_fields().source_id,
    ;
}

/// The secondary header of a telecommand.
#[derive(Clone, Copy, Debug, PartialEq, Eq, Structural)]
pub struct PusTcDataFieldHeader {
    pub service: u8,
    pub subservice: u8,
    pub source_id: u16,
    pub ack: u8,
    pub version: PusVersion,
}

impl PusTcDataFieldHeader {
    /// The five bytes of a PUS C header.
    pub open spec fn bytes(self) -> Seq<u8> {
        seq![(0x20 + self.ack % 16) as u8, self.service, self.subservice]
            + crate::spacepackets::be_bytes_u16(self.source_id)
    }

    /// The header that five bytes stand for.
    pub open spec fn of_bytes(b: Seq<u8>) -> PusTcDataFieldHeader {
        PusTcDataFieldHeader {
            service: b[1],
            subservice: b[2],
            source_id: crate::spacepackets::u16_of_be(b.subrange(3, 5)),
            ack: b[0] % 16,
            version: PusVersion::PusC,
        }
    }

    /// A PUS C header with source 0. Of `ack` the four low bits count.
    pub fn new(service: u8, subservice: u8, ack: u8) -> (r: Self)
        ensures
            r == (PusTcDataFieldHeader {
                service,
                subservice,
                source_id: 0,
                ack: ack % 16,
                version: PusVersion::PusC,
            }),
    {
        PusTcDataFieldHeader { service, subservice, ack: ack % 16, source_id: 0, version: PusVersion::PusC }
    }

    /// A header that asks for every acknowledgement.
    pub fn new_simple(service: u8, subservice: u8) -> (r: Self)
        ensures
            r == (PusTcDataFieldHeader {
                service,
                subservice,
                source_id: 0,
                ack: ACK_ALL,
                version: PusVersion::PusC,
            }),
    {
        PusTcDataFieldHeader::new(service, subservice, ACK_ALL)
    }

    /// Writes the header to the front of `slice`; `None`, and nothing written,
    /// where the header is not PUS C or the slice has less than five bytes.
    pub fn to_bytes(&self, slice: &mut [u8]) -> (r: Option<()>)
        ensures
            final(slice)@.len() == old(slice)@.len(),
            r.is_some() == (self.version == PusVersion::PusC && old(slice)@.len() >= 5),
            final(slice)@ == (if r.is_some() {
                self.bytes() + old(slice)@.subrange(5, old(slice)@.len() as int)
            } else {
                old(slice)@
            }),
    {
        match self.version {
            PusVersion::PusC => {},
            _ => {
                return None;
            },
        }
        if slice.len() < 5 {
            return None;
        }
        let src = u16_to_be(self.source_id);
        slice[0] = 0x20 + self.ack % 16;
        slice[1] = self.service;
        slice[2] = self.subservice;
        slice[3] = src[0];
        slice[4] = src[1];
        assert(slice@ =~= self.bytes() + old(slice)@.subrange(5, old(slice)@.len() as int));
        Some(())
    }

    /// Reads a header from the front of `slice`; `None` where it has less than
    /// five bytes.
    pub fn from_bytes(slice: &[u8]) -> (r: Option<Self>)
        ensures
            r == (if slice@.len() >= 5 {
                Some(PusTcDataFieldHeader::of_bytes(slice@.subrange(0, 5)))
            } else {
                None
            }),
    {
        if slice.len() < 5 {
            return None;
        }
        proof {
            assert(slice@.subrange(0, 5).subrange(3, 5) =~= slice@.subrange(3, 5));
        }
        Some(
            PusTcDataFieldHeader {
                service: slice[1],
                subservice: slice[2],
                source_id: u16_from_be(slice, 3),
                ack: slice[0] % 16,
                version: PusVersion::PusC,
            },
        )
    }
}

impl PusTcSecondaryHeader for PusTcDataFieldHeader {
    open spec fn header_fields(&self) -> PusTcDataFieldHeader {
        *self
    }

    fn ack_flags(&self) -> (r: u8) {
        self.ack
    }

    fn service(&self) -> (r: u8) {
        self.service
    }

    fn subservice(&self) -> (r: u8) {
        self.subservice
    }

    fn source_id(&self) -> (r: u16) {
        self.source_id
    }
}

/// A telecommand packet.
#[derive(Debug, Clone, PartialEq, Eq)]
pub struct PusTc {
    pub sph: SpHeader,
    pub data_field_header: PusTcDataFieldHeader,
    app_data: Option<Vec<u8>>,
    crc16: Option<u16>,
}

/// What a telecommand says, without its buffers: the view of [`PusTc`].
pub struct TcModel {
    pub sph: SpHeader,
    pub data_field_header: PusTcDataFieldHeader,
    pub app_data: Option<Seq<u8>>,
    pub crc16: Option<u16>,
}

impl TcModel {
    pub open spec fn app_data_len(self) -> nat {
        match self.app_data {
            Some(d) => d.len(),
            None => 0,
        }
    }

    /// The length of the packet in bytes.
    pub open spec fn len_packed(self) -> nat {
        PUS_TC_MIN_LEN_WITHOUT_APP_DATA as nat + self.app_data_len()
    }

    /// The packet without its checksum.
    pub open spec fn body(self) -> Seq<u8> {
        self.sph.bytes() + self.data_field_header.bytes() + (match self.app_data {
            Some(d) => d,
            None => Seq::<u8>::empty(),
        })
    }

    /// The data length field that fits the packet, cut to 16 bits.
    pub open spec fn fitting_data_len(self) -> u16 {
        ((self.len_packed() - 7) % 0x1_0000) as u16
    }
}

impl View for PusTc {
    type V = TcModel;

    closed spec fn view(&self) -> TcModel {
        TcModel {
            sph: self.sph,
            data_field_header: self.data_field_header,
            app_data: match self.app_data {
                Some(d) => Some(d@),
                None => None,
            },
            crc16: self.crc16,
        }
    }
}

/// What a parse of `buf` as a telecommand ends in.
pub open spec fn parse_tc(buf: Seq<u8>) -> Result<TcModel, PusError> {
    if buf.len() < PUS_TC_MIN_LEN_WITHOUT_APP_DATA {
        Err(PusError::RawDataTooShort(buf.len() as usize))
    } else {
        let sph = SpHeader::of_bytes(buf.subrange(0, 6));
        let total = sph.total_len_spec() as int;
        if buf.len() < total || total < PUS_TC_MIN_LEN_WITHOUT_APP_DATA {
            Err(PusError::RawDataTooShort(buf.len() as usize))
        } else if crate::spacepackets::crc16(buf.subrange(0, total - 2))
            != crate::spacepackets::u16_of_be(buf.subrange(total - 2, total)) {
            Err(PusError::IncorrectCrc(crate::spacepackets::u16_of_be(buf.subrange(total - 2, total))))
        } else {
            Ok(
                TcModel {
                    sph,
                    data_field_header: PusTcDataFieldHeader::of_bytes(buf.subrange(6, 11)),
                    app_data: Some(buf.subrange(11, total - 2)),
                    crc16: None,
                },
            )
        }
    }
}

fn append(vec: &mut Vec<u8>, bytes: &[u8])
    ensures
        final(vec)@ == old(vec)@ + bytes@,
{
    let mut k: usize = 0;
    while k < bytes.len()
        invariant
            k <= bytes@.len(),
            vec@ == old(vec)@ + bytes@.subrange(0, k as int),
        decreases bytes@.len() - k,
    {
        vec.push(bytes[k]);
        assert(bytes@.subrange(0, k as int + 1) =~= bytes@.subrange(0, k as int).push(bytes@[k as int]));
        assert(vec@ =~= old(vec)@ + bytes@.subrange(0, k as int + 1));
        k += 1;
    }
    assert(bytes@.subrange(0, bytes@.len() as int) =~= bytes@);
}

impl PusTc {
    /// The header is PUS C and the packet is not longer than a `usize` can say.
    pub closed spec fn wf(&self) -> bool {
        &&& self@.len_packed() <= usize::MAX
        &&& self.data_field_header.version == PusVersion::PusC
    }

    /// Builds a telecommand for `service` and `subservice` that asks for every
    /// acknowledgement. `sph` is marked as a telecommand.
    pub fn new(sph: &mut SpHeader, service: u8, subservice: u8, app_data: Option<&[u8]>) -> (r: PusTc)
        requires
            PUS_TC_MIN_LEN_WITHOUT_APP_DATA + (match app_data {
                Some(d) => d@.len(),
                None => 0,
            }) <= usize::MAX,
        ensures
            r.wf(),
            *final(sph) == (SpHeader {
                packet_id: PacketId { ptype: PacketType::Tc, ..old(sph).packet_id },
                ..*old(sph)
            }),
            r@ == (TcModel {
                sph: *final(sph),
                data_field_header: PusTcDataFieldHeader {
                    service,
                    subservice,
                    source_id: 0,
                    ack: ACK_ALL,
                    version: PusVersion::PusC,
                },
                app_data: match app_data {
                    Some(d) => Some(d@),
                    None => None,
                },
                crc16: None,
            }),
    {
        sph.packet_id.ptype = PacketType::Tc;
        PusTc {
            sph: *sph,
            app_data: match app_data {
                Some(d) => Some(vstd::slice::slice_to_vec(d)),
                None => None,
            },
            data_field_header: PusTcDataFieldHeader::new(service, subservice, ACK_ALL),
            crc16: None,
        }
    }

    /// The length of the packet in bytes.
    pub fn len_packed(&self) -> (r: usize)
        requires
            self.wf(),
        ensures
            r == self@.len_packed(),
    {
        let mut length = PUS_TC_MIN_LEN_WITHOUT_APP_DATA;
        if let Some(app_data) = &self.app_data {
            length += app_data.len();
        }
        length
    }

    /// Sets the data length field of the primary header to fit the packet.
    pub fn set_ccsds_data_len(&mut self)
        requires
            old(self).wf(),
        ensures
            final(self).wf(),
            final(self)@ == (TcModel {
                sph: SpHeader { data_len: old(self)@.fitting_data_len(), ..old(self)@.sph },
                ..old(self)@
            }),
    {
        let len = self.len_packed();
        self.sph.data_len = ((len - 7) % 0x1_0000) as u16;
    }

    fn body_vec(&self) -> (r: Vec<u8>)
        requires
            self.wf(),
        ensures
            r@ == self@.body(),
            r@.len() + 2 == self@.len_packed(),
    {
        let mut out: Vec<u8> = Vec::new();
        let mut head = [0u8; 6];
        let written = self.sph.write_to_be_bytes(&mut head);
        assert(head@ =~= self.sph.bytes());
        append(&mut out, &head);
        let mut sec = [0u8; 5];
        let done = self.data_field_header.to_bytes(&mut sec);
        assert(sec@ =~= self.data_field_header.bytes());
        append(&mut out, &sec);
        if let Some(app_data) = &self.app_data {
            append(&mut out, app_data.as_slice());
        }
        assert(out@ =~= self@.body());
        out
    }

    /// Calculates the checksum of the packet and keeps it.
    pub fn calc_crc16(&mut self)
        requires
            old(self).wf(),
        ensures
            final(self).wf(),
            final(self)@ == (TcModel {
                crc16: Some(crate::spacepackets::crc16(old(self)@.body())),
                ..old(self)@
            }),
    {
        let body = self.body_vec();
        self.crc16 = Some(crc16_ccitt_false(body.as_slice()));
    }

    /// Brings the data length field and the checksum up to date. To be called
    /// before the packet is written.
    pub fn update_packet_fields(&mut self)
        requires
            old(self).wf(),
        ensures
            final(self).wf(),
            final(self)@.sph == (SpHeader { data_len: old(self)@.fitting_data_len(), ..old(self)@.sph }),
            final(self)@.data_field_header == old(self)@.data_field_header,
            final(self)@.app_data == old(self)@.app_data,
            final(self)@.crc16 == Some(crate::spacepackets::crc16(final(self)@.body())),
    {
        self.set_ccsds_data_len();
        self.calc_crc16();
    }

    /// Writes the packet with the checksum that was calculated to the front of
    /// `slice` and returns its length.
    pub fn copy_to_buf(&self, slice: &mut [u8]) -> (r: Result<usize, PusError>)
        requires
            self.wf(),
        ensures
            final(slice)@.len() == old(slice)@.len(),
            match r {
                Ok(n) => {
                    &&& self@.crc16.is_some()
                    &&& n == self@.len_packed()
                    &&& n <= old(slice)@.len()
                    &&& final(slice)@ == self@.body() + crate::spacepackets::be_bytes_u16(
                        self@.crc16.unwrap(),
                    ) + old(slice)@.subrange(n as int, old(slice)@.len() as int)
                },
                Err(e) => {
                    &&& final(slice)@ == old(slice)@
                    &&& e == (if self@.crc16.is_none() {
                        PusError::CrcCalculationMissing
                    } else {
                        PusError::ByteConversion(
                            crate::spacepackets::ByteConversionError::ToSliceTooSmall(
                                crate::spacepackets::SizeMissmatch {
                                    found: old(slice)@.len() as usize,
                                    expected: self@.len_packed() as usize,
                                },
                            ),
                        )
                    })
                    &&& self@.crc16.is_none() || self@.len_packed() > old(slice)@.len()
                },
            },
    {
        let crc = match self.crc16 {
            Some(c) => c,
            None => {
                return Err(PusError::CrcCalculationMissing);
            },
        };
        let mut bytes = self.body_vec();
        let tail = u16_to_be(crc);
        append(&mut bytes, &tail);
        match crate::ecss::write_front(slice, bytes.as_slice()) {
            Ok(()) => Ok(bytes.len()),
            Err(e) => Err(PusError::ByteConversion(e)),
        }
    }

    /// Appends the packet with the checksum that was calculated to `vec` and
    /// returns its length.
    pub fn append_to_vec(&self, vec: &mut Vec<u8>) -> (r: Result<usize, PusError>)
        requires
            self.wf(),
        ensures
            match r {
                Ok(n) => {
                    &&& self@.crc16.is_some()
                    &&& n == self@.len_packed()
                    &&& final(vec)@ == old(vec)@ + self@.body() + crate::spacepackets::be_bytes_u16(
                        self@.crc16.unwrap(),
                    )
                },
                Err(e) => e == PusError::CrcCalculationMissing && self@.crc16.is_none() && final(vec)@
                    == old(vec)@,
            },
    {
        let crc = match self.crc16 {
            Some(c) => c,
            None => {
                return Err(PusError::CrcCalculationMissing);
            },
        };
        let body = self.body_vec();
        append(vec, body.as_slice());
        let tail = u16_to_be(crc);
        append(vec, &tail);
        assert(vec@ =~= old(vec)@ + self@.body() + crate::spacepackets::be_bytes_u16(crc));
        Ok(body.len() + 2)
    }

    /// Reads a telecommand from the front of `slice` and checks its checksum.
    pub fn new_from_raw_slice(slice: &[u8]) -> (r: Result<PusTc, PusError>)
        ensures
            match (r, parse_tc(slice@)) {
                (Ok(tc), Ok(model)) => tc@ == model && tc.wf(),
                (Err(e), Err(expected)) => e == expected,
                _ => false,
            },
    {
        let raw_data_len = slice.len();
        if raw_data_len < PUS_TC_MIN_LEN_WITHOUT_APP_DATA {
            return Err(PusError::RawDataTooShort(raw_data_len));
        }
        let sph = match SpHeader::from_be_bytes(slice) {
            Ok(h) => h,
            Err(_) => {
                return Err(PusError::RawDataTooShort(raw_data_len));
            },
        };
        let total_len = sph.total_len();
        if raw_data_len < total_len || total_len < PUS_TC_MIN_LEN_WITHOUT_APP_DATA {
            return Err(PusError::RawDataTooShort(raw_data_len));
        }
        let crc = crc16_ccitt_false(vstd::slice::slice_subrange(slice, 0, total_len - 2));
        let stored = u16_from_be(slice, total_len - 2);
        if crc != stored {
            return Err(PusError::IncorrectCrc(stored));
        }
        let sec = vstd::slice::slice_subrange(slice, 6, 11);
        let data_field_header = match PusTcDataFieldHeader::from_bytes(sec) {
            Some(h) => h,
            None => {
                return Err(PusError::RawDataTooShort(raw_data_len));
            },
        };
        proof {
            assert(sec@.subrange(0, 5) =~= slice@.subrange(6, 11));
        }
        let app = vstd::slice::slice_to_vec(vstd::slice::slice_subrange(slice, 11, total_len - 2));
        Ok(PusTc { sph, data_field_header, app_data: Some(app), crc16: None })
    }

    /// The primary header.
    pub fn sp_header(&self) -> (r: &SpHeader)
        ensures
            *r == self@.sph,
    {
        &self.sph
    }

    /// The length of the packet that the primary header announces.
    pub fn total_len(&self) -> (r: usize)
        ensures
            r == self@.sph.total_len_spec(),
    {
        self.sph.total_len()
    }

    pub fn service(&self) -> (r: u8)
        ensures
            r == self@.data_field_header.service,
    {
        self.data_field_header.service
    }

    pub fn subservice(&self) -> (r: u8)
        ensures
            r == self@.data_field_header.subservice,
    {
        self.data_field_header.subservice
    }

    pub fn source_id(&self) -> (r: u16)
        ensures
            r == self@.data_field_header.source_id,
    {
        self.data_field_header.source_id
    }

    pub fn ack_flags(&self) -> (r: u8)
        ensures
            r == self@.data_field_header.ack,
    {
        self.data_field_header.ack
    }

    pub fn apid(&self) -> (r: u16)
        ensures
            r == self@.sph.packet_id.apid,
    {
        self.sph.packet_id.apid
    }

    pub fn ccsds_version(&self) -> (r: u8)
        ensures
            r == self@.sph.version,
    {
        self.sph.version
    }

    pub fn packet_id(&self) -> (r: PacketId)
        ensures
            r == self@.sph.packet_id,
    {
        self.sph.packet_id
    }

    pub fn psc(&self) -> (r: PacketSequenceCtrl)
        ensures
            r == self@.sph.psc,
    {
        self.sph.psc
    }

    /// The application data, if the packet has any.
    pub fn user_data(&self) -> (r: Option<&[u8]>)
        ensures
            match (r, self@.app_data) {
                (Some(d), Some(m)) => d@ == m,
                (None, None) => true,
                _ => false,
            },
    {
        match &self.app_data {
            Some(d) => Some(d.as_slice()),
            None => None,
        }
    }

    /// The checksum, once it was calculated.
    pub fn crc16(&self) -> (r: Option<u16>)
        ensures
            r == self@.crc16,
    {
        self.crc16
    }
}

} // verus!
