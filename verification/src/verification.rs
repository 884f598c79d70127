//! PUS service 1: verification reports for telecommands.
//!
//! A telecommand is accepted, started, may report steps, and is completed; each
//! of these can also fail. The [`VerificationReporter`] builds the report for
//! each transition and hands it to a sender. Tokens make sure that the
//! transitions come in order: each call takes the token of the state it leaves
//! and gives the token of the state it reaches, and a call that ends the
//! handling of a telecommand takes the token for good.
use crate::ecss::EcssEnumeration;
use crate::spacepackets::{
    copy_into, u32_from_be, u32_to_be, ByteConversionError, PacketId, PacketSequenceCtrl,
    PusError, SizeMissmatch, SpHeader,
};
use crate::tc::PusTc;
use crate::tm::{PusTm, PusTmSecondaryHeader, TmModel};
use core::marker::PhantomData;
use vstd::prelude::*;

verus! {

/// Identifies a telecommand in the reports about it: the version number, the
/// packet id and the sequence control of its primary header.
#[derive(Debug, Clone, Copy, PartialEq, Eq, Hash, Structural)]
pub struct RequestId {
    version_number: u8,
    packet_id: PacketId,
    psc: PacketSequenceCtrl,
}

/// The request id as plain values.
pub struct RequestIdModel {
    pub version_number: u8,
    pub packet_id: PacketId,
    pub psc: PacketSequenceCtrl,
}

impl RequestIdModel {
    /// The request id packed into 32 bits: three bits of version, the packet id
    /// and the sequence control.
    pub open spec fn raw(self) -> u32 {
        ((self.version_number % 8) as int * 0x2000_0000 + self.packet_id.raw_spec() as int * 0x1_0000
            + self.psc.raw_spec() as int) as u32
    }

    /// The request id that 32 bits stand for.
    pub open spec fn of_raw(raw: u32) -> RequestIdModel {
        RequestIdModel {
            version_number: (raw / 0x2000_0000) as u8,
            packet_id: PacketId::of_raw((raw / 0x1_0000 % 0x1_0000) as u16),
            psc: PacketSequenceCtrl::of_raw((raw % 0x1_0000) as u16),
        }
    }

    /// The request id of a telecommand with the given header: the version,
    /// the packet identification and the sequence control of the header, each
    /// cut to its width. A header whose fields are in their ranges gives them
    /// as they are.
    pub open spec fn of_header(sph: crate::spacepackets::SpHeader) -> RequestIdModel {
        RequestIdModel {
            version_number: sph.version % 8,
            packet_id: PacketId { apid: sph.packet_id.apid % 0x800, ..sph.packet_id },
            psc: PacketSequenceCtrl { seq_count: sph.psc.seq_count % 0x4000, ..sph.psc },
        }
    }

    /// Every field is in its range.
    pub open spec fn wf(self) -> bool {
        &&& self.version_number < 8
        &&& self.packet_id.apid <= crate::spacepackets::MAX_APID
        &&& self.psc.seq_count <= crate::spacepackets::MAX_SEQ_COUNT
    }

    pub open spec fn bytes(self) -> Seq<u8> {
        crate::spacepackets::be_bytes_u32(self.raw())
    }
}

/// The 13 bits of a packet identification are read back as they are where
/// three bits of a version stand above them.
proof fn lemma_word_keeps_id(v: u32, p: u32)
    requires
        v < 8,
        p < 0x2000,
    ensures
        (v * 0x2000 + p) / 0x1000 % 2 == p / 0x1000 % 2,
        (v * 0x2000 + p) / 0x800 % 2 == p / 0x800 % 2,
        (v * 0x2000 + p) % 0x800 == p % 0x800,
        (v * 0x2000 + p) < 0x1_0000,
{
    assert((v * 0x2000 + p) / 0x1000 % 2 == p / 0x1000 % 2 && (v * 0x2000 + p) / 0x800 % 2 == p / 0x800
        % 2 && (v * 0x2000 + p) % 0x800 == p % 0x800 && (v * 0x2000 + p) < 0x1_0000) by (bit_vector)
        requires
            v < 8,
            p < 0x2000,
    ;
}

/// The three parts of 32 bits are read back as they were put together.
proof fn lemma_raw_parts(v: u32, p: u32, s: u32)
    requires
        v < 8,
        p < 0x2000,
        s < 0x1_0000,
    ensures
        v * 0x2000_0000 + p * 0x1_0000 + s <= u32::MAX,
        (v * 0x2000_0000 + p * 0x1_0000 + s) / 0x2000_0000 == v,
        (v * 0x2000_0000 + p * 0x1_0000 + s) / 0x1_0000 % 0x1_0000 == v * 0x2000 + p,
        (v * 0x2000_0000 + p * 0x1_0000 + s) % 0x1_0000 == s,
{
    assert(v * 0x2000_0000 + p * 0x1_0000 + s <= 0xFFFF_FFFF && (v * 0x2000_0000 + p * 0x1_0000 + s)
        / 0x2000_0000 == v && (v * 0x2000_0000 + p * 0x1_0000 + s) / 0x1_0000 % 0x1_0000 == v * 0x2000
        + p && (v * 0x2000_0000 + p * 0x1_0000 + s) % 0x1_0000 == s) by (bit_vector)
        requires
            v < 8,
            p < 0x2000,
            s < 0x1_0000,
    ;
}

/// Round trip of a request id: the 32 bits of a request id whose fields are
/// in their ranges stand for that request id.
#[verifier::rlimit(50)]
pub proof fn law_request_id_round_trip(id: RequestIdModel)
    requires
        id.wf(),
    ensures
        RequestIdModel::of_raw(id.raw()) == id,
{
    let v = id.version_number as u32;
    let p = id.packet_id.raw_spec() as u32;
    let s = id.psc.raw_spec() as u32;
    crate::spacepackets::lemma_id_round_trip(id.packet_id, id.psc);
    lemma_raw_parts(v, p, s);
    lemma_word_keeps_id(v, p);
    let raw = id.raw();
    assert(raw == v * 0x2000_0000 + p * 0x1_0000 + s);
    let word = (raw / 0x1_0000 % 0x1_0000) as u16;
    assert(word == v * 0x2000 + p);
    assert(PacketId::of_raw(word) == id.packet_id);
    assert(PacketSequenceCtrl::of_raw((raw % 0x1_0000) as u16) == id.psc);
    assert((raw / 0x2000_0000) as u8 == id.version_number);
}

/// Round trip of the bytes of a request id: the four bytes of a request id
/// whose fields are in their ranges are read back as that request id.
pub proof fn law_request_id_bytes_round_trip(id: RequestIdModel)
    requires
        id.wf(),
    ensures
        id.bytes().len() == 4,
        RequestIdModel::of_raw(crate::spacepackets::u32_of_be(id.bytes())) == id,
{
    law_request_id_round_trip(id);
    crate::spacepackets::lemma_be_round_trip(0, id.raw());
}

impl View for RequestId {
    type V = RequestIdModel;

    closed spec fn view(&self) -> RequestIdModel {
        RequestIdModel { version_number: self.version_number, packet_id: self.packet_id, psc: self.psc }
    }
}

impl RequestId {
    pub const SIZE_AS_BYTES: usize = 4;

    /// The invariant of the type: every field is in its range, so that the
    /// request id is read back from its 32 bits as it is.
    #[verifier::type_invariant]
    spec fn in_range(&self) -> bool {
        self@.wf()
    }

    /// The request id of a telecommand, see [`RequestIdModel::of_header`].
    pub fn new(tc: &PusTc) -> (r: RequestId)
        ensures
            r@ == RequestIdModel::of_header(tc@.sph),
            r@.wf(),
            tc@.sph.wf() ==> r@ == (RequestIdModel {
                version_number: tc@.sph.version,
                packet_id: tc@.sph.packet_id,
                psc: tc@.sph.psc,
            }),
    {
        let packet_id = tc.packet_id();
        let psc = tc.psc();
        RequestId {
            version_number: tc.ccsds_version() % 8,
            packet_id: PacketId {
                ptype: packet_id.ptype,
                sec_header_flag: packet_id.sec_header_flag,
                apid: packet_id.apid % 0x800,
            },
            psc: PacketSequenceCtrl { seq_flags: psc.seq_flags, seq_count: psc.seq_count % 0x4000 },
        }
    }

    /// The 32 bits of the request id. They stand for the request id, see
    /// [`law_request_id_round_trip`].
    pub fn raw(&self) -> (r: u32)
        ensures
            r == self@.raw(),
            self@.wf(),
            RequestIdModel::of_raw(r) == self@,
    {
        proof {
            use_type_invariant(self);
            law_request_id_round_trip(self@);
        }
        let v: u32 = (self.version_number % 8) as u32;
        let pid: u32 = self.packet_id.raw() as u32;
        let psc: u32 = self.psc.raw() as u32;
        v * 0x2000_0000 + pid * 0x1_0000 + psc
    }

    /// Writes the four bytes of the request id to `buf`, which has to be four
    /// bytes long.
    pub fn to_bytes(&self, buf: &mut [u8])
        requires
            old(buf)@.len() == 4,
        ensures
            final(buf)@ == self@.bytes(),
            self@.wf(),
            RequestIdModel::of_raw(crate::spacepackets::u32_of_be(final(buf)@)) == self@,
    {
        proof {
            use_type_invariant(self);
            law_request_id_bytes_round_trip(self@);
        }
        let raw = u32_to_be(self.raw());
        copy_into(buf, 0, &raw);
        assert(buf@ =~= self@.bytes());
    }

    /// Reads a request id from the first four bytes of `buf`; `None` where it is shorter.
    pub fn from_bytes(buf: &[u8]) -> (r: Option<RequestId>)
        ensures
            match r {
                Some(id) => buf@.len() >= 4 && id@ == RequestIdModel::of_raw(
                    crate::spacepackets::u32_of_be(buf@.subrange(0, 4)),
                ) && id@.wf(),
                None => buf@.len() < 4,
            },
    {
        if buf.len() < 4 {
            return None;
        }
        let raw = u32_from_be(buf, 0);
        Some(
            RequestId {
                version_number: (raw / 0x2000_0000) as u8,
                packet_id: PacketId::from_raw((raw / 0x1_0000 % 0x1_0000) as u16),
                psc: PacketSequenceCtrl::from_raw((raw % 0x1_0000) as u16),
            },
        )
    }
}

/// Errors related to the time stamp of a report.
#[derive(Clone, Copy, Debug, PartialEq, Eq, Structural)]
pub enum TimestampError {
    InvalidTimeCode(u8),
    ByteConversion(ByteConversionError),
}

/// What can go wrong when a report is built and sent; `E` is the error of the sender.
#[derive(Debug, Clone)]
pub enum VerificationError<E> {
    /// The sender could not send the report.
    SendError(E),
    /// Errors related to the time stamp of the report.
    TimestampError(TimestampError),
    /// The source data of the report does not fit the buffer of the reporter.
    ByteConversionError(ByteConversionError),
    /// Errors of the packet format.
    PusError(PusError),
}

/// The state of a telecommand that was added and not accepted yet.
#[derive(Copy, Clone, Debug, Eq, PartialEq)]
pub struct StateNone;

/// The state of a telecommand that was accepted.
#[derive(Copy, Clone, Debug, Eq, PartialEq)]
pub struct StateAccepted;

/// The state of a telecommand whose execution has started.
#[derive(Copy, Clone, Debug, Eq, PartialEq)]
pub struct StateStarted;

/// The right to report the next transition of one telecommand.
#[derive(Debug, Eq, PartialEq)]
pub struct VerificationToken<STATE> {
    state: PhantomData<STATE>,
    req_id: RequestId,
}

impl<STATE> Clone for VerificationToken<STATE> {
    fn clone(&self) -> (r: Self)
        ensures
            r == *self,
    {
        VerificationToken { state: PhantomData, req_id: self.req_id }
    }
}

impl<STATE> Copy for VerificationToken<STATE> {

}

impl<STATE> VerificationToken<STATE> {
    pub closed spec fn req_id_spec(&self) -> RequestId {
        self.req_id
    }

    fn new(req_id: RequestId) -> (r: VerificationToken<StateNone>)
        ensures
            r.req_id_spec() == req_id,
    {
        VerificationToken { state: PhantomData, req_id }
    }

    pub fn req_id(&self) -> (r: RequestId)
        ensures
            r == self.req_id_spec(),
            r@.wf(),
    {
        let r = self.req_id;
        proof {
            use_type_invariant(&r);
        }
        r
    }
}

/// An error together with the token of the call that failed, so that the call
/// can be tried again.
#[derive(Debug, Clone)]
pub struct VerificationErrorWithToken<E, T>(pub VerificationError<E>, pub VerificationToken<T>);

/// Sends verification reports to whoever collects them.
///
/// `sent` is the list of reports sent with success, oldest first.
///
/// `offered` is the list of the reports that the sender was asked to send,
/// with success or without, oldest first.
pub trait VerificationSender<E> {
    open spec fn sent(&self) -> Seq<TmModel> {
        arbitrary()
    }

    open spec fn offered(&self) -> Seq<TmModel> {
        arbitrary()
    }

    /// The invariant of the sender.
    open spec fn usable(&self) -> bool {
        true
    }

    /// Sends one report. A report that could not be sent leaves no trace but
    /// in what was offered, and the error is a send error.
    fn send_verification_tm(&mut self, tm: PusTm) -> (r: Result<(), VerificationError<E>>)
        requires
            old(self).usable(),
            tm.wf(),
        ensures
            final(self).usable(),
            final(self).offered() == old(self).offered().push(tm@),
            r.is_ok() ==> final(self).sent() == old(self).sent().push(tm@),
            r.is_err() ==> final(self).sent() == old(self).sent(),
            r matches Err(e) ==> e is SendError,
    ;
}

/// What a reporter is made from.
pub struct VerificationReporterCfg {
    pub apid: u16,
    pub dest_id: u16,
    pub step_field_width: usize,
    pub fail_code_field_width: usize,
    pub max_fail_data_len: usize,
}

impl VerificationReporterCfg {
    /// A configuration with destination 0. The three widths are the largest
    /// that the reports will need; the reporter sizes its buffer by them.
    pub fn new(
        apid: u16,
        step_field_width: usize,
        fail_code_field_width: usize,
        max_fail_data_len: usize,
    ) -> (r: Self)
        ensures
            r.apid == apid,
            r.dest_id == 0,
            r.step_field_width == step_field_width,
            r.fail_code_field_width == fail_code_field_width,
            r.max_fail_data_len == max_fail_data_len,
    {
        Self { apid, dest_id: 0, step_field_width, fail_code_field_width, max_fail_data_len }
    }
}

/// The parameters of a failure report.
pub struct FailParams<'a, C: EcssEnumeration> {
    time_stamp: &'a [u8],
    failure_code: &'a C,
    failure_data: Option<&'a [u8]>,
}

impl<'a, C: EcssEnumeration> FailParams<'a, C> {
    pub closed spec fn time_stamp(&self) -> Seq<u8> {
        self.time_stamp@
    }

    pub closed spec fn failure_code(&self) -> Seq<u8> {
        self.failure_code.raw_bytes()
    }

    pub closed spec fn failure_data(&self) -> Option<Seq<u8>> {
        match self.failure_data {
            Some(d) => Some(d@),
            None => None,
        }
    }

    pub fn new(time_stamp: &'a [u8], failure_code: &'a C, failure_data: Option<&'a [u8]>) -> (r: Self)
        ensures
            r.time_stamp() == time_stamp@,
            r.failure_code() == failure_code.raw_bytes(),
            r.failure_data() == (match failure_data {
                Some(d) => Some(d@),
                None => None,
            }),
    {
        Self { time_stamp, failure_code, failure_data }
    }
}

/// The parameters of the report of a step that failed.
pub struct FailParamsWithStep<'a, S: EcssEnumeration, C: EcssEnumeration> {
    bp: FailParams<'a, C>,
    step: &'a S,
}

impl<'a, S: EcssEnumeration, C: EcssEnumeration> FailParamsWithStep<'a, S, C> {
    pub closed spec fn params(&self) -> FailParams<'a, C> {
        self.bp
    }

    pub closed spec fn step(&self) -> Seq<u8> {
        self.step.raw_bytes()
    }

    pub fn new(
        time_stamp: &'a [u8],
        step: &'a S,
        failure_code: &'a C,
        failure_data: Option<&'a [u8]>,
    ) -> (r: Self)
        ensures
            r.params().time_stamp() == time_stamp@,
            r.params().failure_code() == failure_code.raw_bytes(),
            r.params().failure_data() == (match failure_data {
                Some(d) => Some(d@),
                None => None,
            }),
            r.step() == step.raw_bytes(),
    {
        Self { bp: FailParams::new(time_stamp, failure_code, failure_data), step }
    }
}

/// The bytes of an optional field, none for a field that is not there.
pub open spec fn opt_bytes(field: Option<Seq<u8>>) -> Seq<u8> {
    match field {
        Some(b) => b,
        None => Seq::<u8>::empty(),
    }
}

/// The source data of a report of success: the request id and, for a step, the step.
pub open spec fn success_source_data(req_id: RequestIdModel, step: Option<Seq<u8>>) -> Seq<u8> {
    req_id.bytes() + opt_bytes(step)
}

/// The source data of a report of failure: the request id, the step where
/// there is one, the failure code and the failure data.
pub open spec fn failure_source_data(
    req_id: RequestIdModel,
    step: Option<Seq<u8>>,
    failure_code: Seq<u8>,
    failure_data: Option<Seq<u8>>,
) -> Seq<u8> {
    req_id.bytes() + opt_bytes(step) + failure_code + opt_bytes(failure_data)
}

/// The report of service 1 with the given subservice and content.
pub open spec fn verification_tm(
    apid: u16,
    dest_id: u16,
    msg_count: u16,
    subservice: u8,
    time_stamp: Seq<u8>,
    source_data: Seq<u8>,
) -> TmModel {
    let without_len = TmModel {
        sp_header: SpHeader {
            version: 0,
            packet_id: PacketId { ptype: crate::spacepackets::PacketType::Tm, sec_header_flag: true, apid },
            psc: PacketSequenceCtrl {
                seq_flags: crate::spacepackets::SequenceFlags::Unsegmented,
                seq_count: 0,
            },
            data_len: 0,
        },
        sc_time_ref_status: 0,
        service: 1,
        subservice,
        msg_counter: msg_count,
        dest_id,
        time_stamp,
        source_data,
    };
    TmModel {
        sp_header: SpHeader { data_len: without_len.fitting_data_len(), ..without_len.sp_header },
        ..without_len
    }
}

/// The error of a report whose source data of `len` bytes does not fit a buffer
/// of `cap` bytes. A length that no `usize` can say is given as the largest `usize`.
pub open spec fn too_small(cap: nat, len: nat) -> ByteConversionError {
    ByteConversionError::ToSliceTooSmall(
        SizeMissmatch {
            found: cap as usize,
            expected: if len <= usize::MAX {
                len as usize
            } else {
                usize::MAX
            },
        },
    )
}

/// The sum of two lengths, or the largest `usize` where the sum is larger.
fn sat_add(a: usize, b: usize) -> (r: usize)
    ensures
        r == (if a + b <= usize::MAX {
            (a + b) as usize
        } else {
            usize::MAX
        }),
{
    if b > usize::MAX - a {
        usize::MAX
    } else {
        a + b
    }
}

/// The message counter after one more report.
pub open spec fn next_count(count: u16) -> u16 {
    if count == u16::MAX {
        0
    } else {
        (count + 1) as u16
    }
}

/// Builds and sends the reports of service 1.
pub struct VerificationReporter {
    pub apid: u16,
    pub dest_id: u16,
    pub msg_count: u16,
    pub source_data_buf: Vec<u8>,
}

impl VerificationReporter {
    /// The number of reports sent so far, counted modulo 2^16.
    pub open spec fn msg_count(&self) -> u16 {
        self.msg_count
    }

    /// The size of the buffer for source data.
    pub open spec fn buf_len(&self) -> nat {
        self.source_data_buf@.len()
    }

    /// What a call needs of the reporter and the time stamp: an APID of 11 bits
    /// and a packet length that a `usize` can say.
    pub open spec fn ready(&self, time_stamp: Seq<u8>) -> bool {
        &&& self.apid <= crate::spacepackets::MAX_APID
        &&& crate::tm::PUS_TM_MIN_LEN + time_stamp.len() + self.buf_len() <= usize::MAX
    }

    /// Everything but the message counter is as in `before`.
    pub open spec fn same_setup(&self, before: &Self) -> bool {
        &&& self.apid == before.apid
        &&& self.dest_id == before.dest_id
        &&& self.buf_len() == before.buf_len()
    }

    /// A reporter with message counter 0 and a buffer for the request id, a
    /// step, a failure code and failure data of the configured widths.
    pub fn new(cfg: VerificationReporterCfg) -> (r: Self)
        requires
            4 + cfg.step_field_width + cfg.fail_code_field_width + cfg.max_fail_data_len <= usize::MAX,
        ensures
            r.apid == cfg.apid,
            r.dest_id == cfg.dest_id,
            r.msg_count() == 0,
            r.buf_len() == 4 + cfg.step_field_width + cfg.fail_code_field_width
                + cfg.max_fail_data_len,
    {
        let n = RequestId::SIZE_AS_BYTES + cfg.step_field_width + cfg.fail_code_field_width
            + cfg.max_fail_data_len;
        let mut buf: Vec<u8> = Vec::new();
        let mut k: usize = 0;
        while k < n
            invariant
                k <= n,
                buf@.len() == k,
            decreases n - k,
        {
            buf.push(0u8);
            k += 1;
        }
        Self { apid: cfg.apid, dest_id: cfg.dest_id, msg_count: 0, source_data_buf: buf }
    }

    /// The longest source data that a report can have.
    pub fn allowed_source_data_len(&self) -> (r: usize)
        ensures
            r == self.buf_len(),
    {
        self.source_data_buf.len()
    }

    /// Starts the verification of a telecommand and gives the token for its acceptance.
    pub fn add_tc(&mut self, pus_tc: &PusTc) -> (r: VerificationToken<StateNone>)
        ensures
            *final(self) == *old(self),
            r.req_id_spec()@ == RequestIdModel::of_header(pus_tc@.sph),
    {
        self.add_tc_with_req_id(RequestId::new(pus_tc))
    }

    /// Like [`Self::add_tc`], for a caller that has the request id only.
    pub fn add_tc_with_req_id(&mut self, req_id: RequestId) -> (r: VerificationToken<StateNone>)
        ensures
            *final(self) == *old(self),
            r.req_id_spec() == req_id,
    {
        VerificationToken::<StateNone>::new(req_id)
    }

    /// Checks that source data of `len` bytes fits the buffer.
    fn source_buffer_large_enough<E>(&self, len: usize) -> (r: Result<(), VerificationError<E>>)
        ensures
            match r {
                Ok(()) => len <= self.buf_len(),
                Err(VerificationError::ByteConversionError(e)) => len > self.buf_len() && e
                    == too_small(self.buf_len(), len as nat),
                Err(_) => false,
            },
    {
        if len > self.source_data_buf.len() {
            return Err(
                VerificationError::ByteConversionError(
                    ByteConversionError::ToSliceTooSmall(
                        SizeMissmatch { found: self.source_data_buf.len(), expected: len },
                    ),
                ),
            );
        }
        Ok(())
    }

    /// The report with the first `source_data_len` bytes of the buffer as source data.
    fn create_pus_verif_tm_base(
        &self,
        service: u8,
        subservice: u8,
        sp_header: &mut SpHeader,
        time_stamp: &[u8],
        source_data_len: usize,
    ) -> (r: PusTm)
        requires
            source_data_len <= self.buf_len(),
            crate::tm::PUS_TM_MIN_LEN + time_stamp@.len() + self.buf_len() <= usize::MAX,
        ensures
            r.wf(),
            r@.sp_header == (SpHeader {
                packet_id: PacketId {
                    ptype: crate::spacepackets::PacketType::Tm,
                    sec_header_flag: true,
                    apid: old(sp_header).packet_id.apid,
                },
                data_len: r@.fitting_data_len(),
                ..*old(sp_header)
            }),
            r@.sc_time_ref_status == 0,
            r@.service == service,
            r@.subservice == subservice,
            r@.msg_counter == self.msg_count(),
            r@.dest_id == self.dest_id,
            r@.time_stamp == time_stamp@,
            r@.source_data == self.source_data_buf@.subrange(0, source_data_len as int),
    {
        let tm_sec_header = PusTmSecondaryHeader::new(
            service,
            subservice,
            self.msg_count,
            self.dest_id,
            time_stamp,
        );
        let data = vstd::slice::slice_subrange(self.source_data_buf.as_slice(), 0, source_data_len);
        PusTm::new(sp_header, tm_sec_header, Some(data), true)
    }

    /// Builds a report of success. The source data is the request id and,
    /// where `step` is given, the step.
    pub fn create_pus_verif_success_tm<E, S: EcssEnumeration>(
        &mut self,
        service: u8,
        subservice: u8,
        req_id: &RequestId,
        time_stamp: &[u8],
        step: Option<&S>,
    ) -> (r: Result<PusTm, VerificationError<E>>)
        requires
            old(self).ready(time_stamp@),
        ensures
            final(self).same_setup(old(self)),
            final(self).msg_count() == old(self).msg_count(),
            ({
                let step_bytes = match step {
                    Some(s) => Some(s.raw_bytes()),
                    None => None,
                };
                let data = success_source_data(req_id@, step_bytes);
                match r {
                    Ok(tm) => {
                        &&& data.len() <= old(self).buf_len()
                        &&& tm.wf()
                        &&& tm@ == (TmModel {
                            service,
                            ..verification_tm(
                                old(self).apid,
                                old(self).dest_id,
                                old(self).msg_count(),
                                subservice,
                                time_stamp@,
                                data,
                            )
                        })
                    },
                    Err(VerificationError::ByteConversionError(e)) => {
                        &&& data.len() > old(self).buf_len()
                        &&& e == too_small(old(self).buf_len(), data.len())
                    },
                    Err(_) => false,
                }
            }),
    {
        let mut source_data_len: usize = RequestId::SIZE_AS_BYTES;
        if let Some(step) = step {
            source_data_len = sat_add(source_data_len, step.byte_width());
        }
        self.source_buffer_large_enough::<E>(source_data_len)?;
        let raw = u32_to_be(req_id.raw());
        copy_into(self.source_data_buf.as_mut_slice(), 0, &raw);
        if let Some(step) = step {
            self.write_field(RequestId::SIZE_AS_BYTES, step);
        }
        let mut sp_header = SpHeader::tm(self.apid, 0, 0).unwrap();
        let tm = self.create_pus_verif_tm_base(service, subservice, &mut sp_header, time_stamp, source_data_len);
        proof {
            let step_bytes = match step {
                Some(s) => Some(s.raw_bytes()),
                None => None,
            };
            assert(tm@.source_data =~= success_source_data(req_id@, step_bytes));
        }
        Ok(tm)
    }

    /// Writes `field` into the buffer from index `at` on.
    fn write_field<F: EcssEnumeration>(&mut self, at: usize, field: &F)
        requires
            at + field.raw_bytes().len() <= old(self).buf_len(),
        ensures
            final(self).same_setup(old(self)),
            final(self).msg_count() == old(self).msg_count(),
            final(self).source_data_buf@ == old(self).source_data_buf@.subrange(0, at as int)
                + field.raw_bytes() + old(self).source_data_buf@.subrange(
                at + field.raw_bytes().len(),
                old(self).buf_len() as int,
            ),
    {
        let w = field.byte_width();
        let mut scratch: Vec<u8> = Vec::new();
        let mut k: usize = 0;
        while k < w
            invariant
                k <= w,
                scratch@.len() == k,
            decreases w - k,
        {
            scratch.push(0u8);
            k += 1;
        }
        let done = field.write_to_be_bytes(scratch.as_mut_slice());
        assert(scratch@ =~= field.raw_bytes());
        copy_into(self.source_data_buf.as_mut_slice(), at, scratch.as_slice());
    }
}


impl VerificationReporter {
    /// Builds a report of failure. The source data is the request id, the step
    /// where one is given, the failure code and the failure data.
    pub fn create_pus_verif_fail_tm<E, S: EcssEnumeration, C: EcssEnumeration>(
        &mut self,
        service: u8,
        subservice: u8,
        req_id: &RequestId,
        step: Option<&S>,
        params: &FailParams<C>,
    ) -> (r: Result<PusTm, VerificationError<E>>)
        requires
            old(self).ready(params.time_stamp()),
        ensures
            final(self).same_setup(old(self)),
            final(self).msg_count() == old(self).msg_count(),
            ({
                let step_bytes = match step {
                    Some(s) => Some(s.raw_bytes()),
                    None => None,
                };
                let data = failure_source_data(
                    req_id@,
                    step_bytes,
                    params.failure_code(),
                    params.failure_data(),
                );
                match r {
                    Ok(tm) => {
                        &&& data.len() <= old(self).buf_len()
                        &&& tm.wf()
                        &&& tm@ == (TmModel {
                            service,
                            ..verification_tm(
                                old(self).apid,
                                old(self).dest_id,
                                old(self).msg_count(),
                                subservice,
                                params.time_stamp(),
                                data,
                            )
                        })
                    },
                    Err(VerificationError::ByteConversionError(e)) => {
                        &&& data.len() > old(self).buf_len()
                        &&& e == too_small(old(self).buf_len(), data.len())
                    },
                    Err(_) => false,
                }
            }),
    {
        let mut idx: usize = 0;
        let code_width = params.failure_code.byte_width();
        let mut source_data_len: usize = sat_add(RequestId::SIZE_AS_BYTES, code_width);
        if let Some(step) = step {
            source_data_len = sat_add(source_data_len, step.byte_width());
        }
        if let Some(failure_data) = params.failure_data {
            source_data_len = sat_add(source_data_len, failure_data.len());
        }
        self.source_buffer_large_enough::<E>(source_data_len)?;
        let raw = u32_to_be(req_id.raw());
        copy_into(self.source_data_buf.as_mut_slice(), 0, &raw);
        idx += RequestId::SIZE_AS_BYTES;
        if let Some(step) = step {
            self.write_field(idx, step);
            idx += step.byte_width();
        }
        self.write_field(idx, params.failure_code);
        idx += code_width;
        if let Some(failure_data) = params.failure_data {
            copy_into(self.source_data_buf.as_mut_slice(), idx, failure_data);
        }
        let mut sp_header = SpHeader::tm(self.apid, 0, 0).unwrap();
        let tm = self.create_pus_verif_tm_base(
            service,
            subservice,
            &mut sp_header,
            params.time_stamp,
            source_data_len,
        );
        proof {
            let step_bytes = match step {
                Some(s) => Some(s.raw_bytes()),
                None => None,
            };
            assert(tm@.source_data =~= failure_source_data(
                req_id@,
                step_bytes,
                params.failure_code(),
                params.failure_data(),
            ));
        }
        Ok(tm)
    }

    /// The report of success that the reporter would build now.
    pub open spec fn success_tm(
        &self,
        subservice: u8,
        req_id: RequestId,
        time_stamp: Seq<u8>,
        step: Option<Seq<u8>>,
    ) -> TmModel {
        verification_tm(
            self.apid,
            self.dest_id,
            self.msg_count(),
            subservice,
            time_stamp,
            success_source_data(req_id@, step),
        )
    }

    /// The report of failure that the reporter would build now.
    pub open spec fn failure_tm<C: EcssEnumeration>(
        &self,
        subservice: u8,
        req_id: RequestId,
        step: Option<Seq<u8>>,
        params: &FailParams<C>,
    ) -> TmModel {
        verification_tm(
            self.apid,
            self.dest_id,
            self.msg_count(),
            subservice,
            params.time_stamp(),
            failure_source_data(req_id@, step, params.failure_code(), params.failure_data()),
        )
    }

    /// What a reporting call leaves behind. A report that fits the buffer is
    /// offered to the sender, once; one that does not fit is never offered.
    /// With success the report `tm` was sent and counted; else nothing was sent
    /// and the count stays.
    pub open spec fn reported(
        before: &Self,
        after: &Self,
        sent_before: Seq<TmModel>,
        sent_after: Seq<TmModel>,
        offered_before: Seq<TmModel>,
        offered_after: Seq<TmModel>,
        tm: TmModel,
        ok: bool,
    ) -> bool {
        &&& after.same_setup(before)
        &&& if tm.source_data.len() <= before.buf_len() {
            offered_after == offered_before.push(tm)
        } else {
            !ok && offered_after == offered_before
        }
        &&& if ok {
            sent_after == sent_before.push(tm) && after.msg_count() == next_count(before.msg_count())
        } else {
            sent_after == sent_before && after.msg_count() == before.msg_count()
        }
    }

    /// The error of a reporting call: for a report that does not fit the
    /// buffer it says so, with both lengths; for one that fits it is the
    /// error of the sender.
    pub open spec fn refusal<E>(before: &Self, tm: TmModel, e: VerificationError<E>) -> bool {
        if tm.source_data.len() > before.buf_len() {
            e matches VerificationError::ByteConversionError(b) && b == too_small(
                before.buf_len(),
                tm.source_data.len(),
            )
        } else {
            e is SendError
        }
    }

    /// What is done with the answer of the sender: a report that was sent is
    /// counted, and the answer is handed on.
    pub fn count_sent<E>(&mut self, answer: Result<(), VerificationError<E>>) -> (r: Result<
        (),
        VerificationError<E>,
    >)
        ensures
            r == answer,
            final(self).same_setup(old(self)),
            final(self).msg_count() == (if answer.is_ok() {
                next_count(old(self).msg_count())
            } else {
                old(self).msg_count()
            }),
    {
        if answer.is_ok() {
            self.msg_count = if self.msg_count == u16::MAX {
                0
            } else {
                self.msg_count + 1
            };
        }
        answer
    }

    fn send_counted<E, V: VerificationSender<E>>(&mut self, sender: &mut V, tm: PusTm) -> (r: Result<
        (),
        VerificationError<E>,
    >)
        requires
            old(sender).usable(),
            tm.wf(),
        ensures
            final(sender).usable(),
            final(self).same_setup(old(self)),
            final(sender).offered() == old(sender).offered().push(tm@),
            r.is_ok() ==> final(sender).sent() == old(sender).sent().push(tm@) && final(self).msg_count()
                == next_count(old(self).msg_count()),
            r.is_err() ==> final(sender).sent() == old(sender).sent() && final(self).msg_count()
                == old(self).msg_count(),
            r matches Err(e) ==> e is SendError,
    {
        let answer = sender.send_verification_tm(tm);
        self.count_sent(answer)
    }

    fn report_success<E, V: VerificationSender<E>, S: EcssEnumeration>(
        &mut self,
        subservice: u8,
        req_id: &RequestId,
        sender: &mut V,
        time_stamp: &[u8],
        step: Option<&S>,
    ) -> (r: Result<(), VerificationError<E>>)
        requires
            old(sender).usable(),
            old(self).ready(time_stamp@),
        ensures
            final(sender).usable(),
            ({
                let step_bytes = match step {
                    Some(s) => Some(s.raw_bytes()),
                    None => None,
                };
                let tm = old(self).success_tm(subservice, *req_id, time_stamp@, step_bytes);
                &&& Self::reported(
                    old(self),
                    final(self),
                    old(sender).sent(),
                    final(sender).sent(),
                    old(sender).offered(),
                    final(sender).offered(),
                    tm,
                    r.is_ok(),
                )
                &&& r matches Err(e) ==> Self::refusal(old(self), tm, e)
            }),
    {
        let tm = self.create_pus_verif_success_tm::<E, S>(1, subservice, req_id, time_stamp, step)?;
        self.send_counted(sender, tm)
    }

    fn report_failure<E, V: VerificationSender<E>, S: EcssEnumeration, C: EcssEnumeration>(
        &mut self,
        subservice: u8,
        req_id: &RequestId,
        sender: &mut V,
        step: Option<&S>,
        params: &FailParams<C>,
    ) -> (r: Result<(), VerificationError<E>>)
        requires
            old(sender).usable(),
            old(self).ready(params.time_stamp()),
        ensures
            final(sender).usable(),
            ({
                let step_bytes = match step {
                    Some(s) => Some(s.raw_bytes()),
                    None => None,
                };
                let tm = old(self).failure_tm(subservice, *req_id, step_bytes, params);
                &&& Self::reported(
                    old(self),
                    final(self),
                    old(sender).sent(),
                    final(sender).sent(),
                    old(sender).offered(),
                    final(sender).offered(),
                    tm,
                    r.is_ok(),
                )
                &&& r matches Err(e) ==> Self::refusal(old(self), tm, e)
            }),
    {
        let tm = self.create_pus_verif_fail_tm::<E, S, C>(1, subservice, req_id, step, params)?;
        self.send_counted(sender, tm)
    }

    /// Reports the acceptance of a telecommand, TM[1, 1], and gives the token
    /// for its start. After an error the token comes back with the error.
    pub fn acceptance_success<E, V: VerificationSender<E>>(
        &mut self,
        token: VerificationToken<StateNone>,
        sender: &mut V,
        time_stamp: &[u8],
    ) -> (r: Result<VerificationToken<StateAccepted>, VerificationErrorWithToken<E, StateNone>>)
        requires
            old(sender).usable(),
            old(self).ready(time_stamp@),
        ensures
            final(sender).usable(),
            ({
                let tm = old(self).success_tm(1, token.req_id_spec(), time_stamp@, None);
                &&& Self::reported(
                    old(self),
                    final(self),
                    old(sender).sent(),
                    final(sender).sent(),
                    old(sender).offered(),
                    final(sender).offered(),
                    tm,
                    r.is_ok(),
                )
                &&& match r {
                    Ok(next) => next.req_id_spec() == token.req_id_spec(),
                    Err(e) => e.1 == token && Self::refusal(old(self), tm, e.0),
                }
            }),
    {
        let req_id = token.req_id;
        match self.report_success::<E, V, crate::ecss::EcssEnumU8>(1, &req_id, sender, time_stamp, None) {
            Ok(()) => Ok(VerificationToken { state: PhantomData, req_id }),
            Err(e) => Err(VerificationErrorWithToken(e, token)),
        }
    }

    /// Reports that a telecommand was not accepted, TM[1, 2]. This ends the
    /// handling of the telecommand. After an error the token comes back with
    /// the error.
    pub fn acceptance_failure<E, V: VerificationSender<E>, C: EcssEnumeration>(
        &mut self,
        token: VerificationToken<StateNone>,
        sender: &mut V,
        params: FailParams<C>,
    ) -> (r: Result<(), VerificationErrorWithToken<E, StateNone>>)
        requires
            old(sender).usable(),
            old(self).ready(params.time_stamp()),
        ensures
            final(sender).usable(),
            ({
                let tm = old(self).failure_tm(2, token.req_id_spec(), None, &params);
                &&& Self::reported(
                    old(self),
                    final(self),
                    old(sender).sent(),
                    final(sender).sent(),
                    old(sender).offered(),
                    final(sender).offered(),
                    tm,
                    r.is_ok(),
                )
                &&& r matches Err(e) ==> e.1 == token && Self::refusal(old(self), tm, e.0)
            }),
    {
        let req_id = token.req_id;
        match self.report_failure::<E, V, crate::ecss::EcssEnumU8, C>(2, &req_id, sender, None, &params) {
            Ok(()) => Ok(()),
            Err(e) => Err(VerificationErrorWithToken(e, token)),
        }
    }

    /// Reports the start of the execution of a telecommand, TM[1, 3], and gives
    /// the token for its steps and its completion.
    pub fn start_success<E, V: VerificationSender<E>>(
        &mut self,
        token: VerificationToken<StateAccepted>,
        sender: &mut V,
        time_stamp: &[u8],
    ) -> (r: Result<VerificationToken<StateStarted>, VerificationErrorWithToken<E, StateAccepted>>)
        requires
            old(sender).usable(),
            old(self).ready(time_stamp@),
        ensures
            final(sender).usable(),
            ({
                let tm = old(self).success_tm(3, token.req_id_spec(), time_stamp@, None);
                &&& Self::reported(
                    old(self),
                    final(self),
                    old(sender).sent(),
                    final(sender).sent(),
                    old(sender).offered(),
                    final(sender).offered(),
                    tm,
                    r.is_ok(),
                )
                &&& match r {
                    Ok(next) => next.req_id_spec() == token.req_id_spec(),
                    Err(e) => e.1 == token && Self::refusal(old(self), tm, e.0),
                }
            }),
    {
        let req_id = token.req_id;
        match self.report_success::<E, V, crate::ecss::EcssEnumU8>(3, &req_id, sender, time_stamp, None) {
            Ok(()) => Ok(VerificationToken { state: PhantomData, req_id }),
            Err(e) => Err(VerificationErrorWithToken(e, token)),
        }
    }

    /// Reports that the execution of a telecommand could not start, TM[1, 4].
    /// This ends the handling of the telecommand.
    pub fn start_failure<E, V: VerificationSender<E>, C: EcssEnumeration>(
        &mut self,
        token: VerificationToken<StateAccepted>,
        sender: &mut V,
        params: FailParams<C>,
    ) -> (r: Result<(), VerificationErrorWithToken<E, StateAccepted>>)
        requires
            old(sender).usable(),
            old(self).ready(params.time_stamp()),
        ensures
            final(sender).usable(),
            ({
                let tm = old(self).failure_tm(4, token.req_id_spec(), None, &params);
                &&& Self::reported(
                    old(self),
                    final(self),
                    old(sender).sent(),
                    final(sender).sent(),
                    old(sender).offered(),
                    final(sender).offered(),
                    tm,
                    r.is_ok(),
                )
                &&& r matches Err(e) ==> e.1 == token && Self::refusal(old(self), tm, e.0)
            }),
    {
        let req_id = token.req_id;
        match self.report_failure::<E, V, crate::ecss::EcssEnumU8, C>(4, &req_id, sender, None, &params) {
            Ok(()) => Ok(()),
            Err(e) => Err(VerificationErrorWithToken(e, token)),
        }
    }

    /// Reports a step of the execution, TM[1, 5]. The token stays with the caller.
    pub fn step_success<E, V: VerificationSender<E>, S: EcssEnumeration>(
        &mut self,
        token: &VerificationToken<StateStarted>,
        sender: &mut V,
        time_stamp: &[u8],
        step: S,
    ) -> (r: Result<(), VerificationError<E>>)
        requires
            old(sender).usable(),
            old(self).ready(time_stamp@),
        ensures
            final(sender).usable(),
            ({
                let tm = old(self).success_tm(
                    5,
                    token.req_id_spec(),
                    time_stamp@,
                    Some(step.raw_bytes()),
                );
                &&& Self::reported(
                    old(self),
                    final(self),
                    old(sender).sent(),
                    final(sender).sent(),
                    old(sender).offered(),
                    final(sender).offered(),
                    tm,
                    r.is_ok(),
                )
                &&& r matches Err(e) ==> Self::refusal(old(self), tm, e)
            }),
    {
        let req_id = token.req_id;
        self.report_success::<E, V, S>(5, &req_id, sender, time_stamp, Some(&step))
    }

    /// Reports that a step of the execution failed, TM[1, 6]. This ends the
    /// handling of the telecommand.
    pub fn step_failure<E, V: VerificationSender<E>, S: EcssEnumeration, C: EcssEnumeration>(
        &mut self,
        token: VerificationToken<StateStarted>,
        sender: &mut V,
        params: FailParamsWithStep<S, C>,
    ) -> (r: Result<(), VerificationErrorWithToken<E, StateStarted>>)
        requires
            old(sender).usable(),
            old(self).ready(params.params().time_stamp()),
        ensures
            final(sender).usable(),
            ({
                let tm = old(self).failure_tm(
                    6,
                    token.req_id_spec(),
                    Some(params.step()),
                    &params.params(),
                );
                &&& Self::reported(
                    old(self),
                    final(self),
                    old(sender).sent(),
                    final(sender).sent(),
                    old(sender).offered(),
                    final(sender).offered(),
                    tm,
                    r.is_ok(),
                )
                &&& r matches Err(e) ==> e.1 == token && Self::refusal(old(self), tm, e.0)
            }),
    {
        let req_id = token.req_id;
        match self.report_failure::<E, V, S, C>(6, &req_id, sender, Some(params.step), &params.bp) {
            Ok(()) => Ok(()),
            Err(e) => Err(VerificationErrorWithToken(e, token)),
        }
    }

    /// Reports the completion of a telecommand, TM[1, 7]. This ends the
    /// handling of the telecommand.
    pub fn completion_success<E, V: VerificationSender<E>>(
        &mut self,
        token: VerificationToken<StateStarted>,
        sender: &mut V,
        time_stamp: &[u8],
    ) -> (r: Result<(), VerificationErrorWithToken<E, StateStarted>>)
        requires
            old(sender).usable(),
            old(self).ready(time_stamp@),
        ensures
            final(sender).usable(),
            ({
                let tm = old(self).success_tm(7, token.req_id_spec(), time_stamp@, None);
                &&& Self::reported(
                    old(self),
                    final(self),
                    old(sender).sent(),
                    final(sender).sent(),
                    old(sender).offered(),
                    final(sender).offered(),
                    tm,
                    r.is_ok(),
                )
                &&& r matches Err(e) ==> e.1 == token && Self::refusal(old(self), tm, e.0)
            }),
    {
        let req_id = token.req_id;
        match self.report_success::<E, V, crate::ecss::EcssEnumU8>(7, &req_id, sender, time_stamp, None) {
            Ok(()) => Ok(()),
            Err(e) => Err(VerificationErrorWithToken(e, token)),
        }
    }

    /// Reports that a telecommand could not be completed, TM[1, 8]. This ends
    /// the handling of the telecommand.
    pub fn completion_failure<E, V: VerificationSender<E>, C: EcssEnumeration>(
        &mut self,
        token: VerificationToken<StateStarted>,
        sender: &mut V,
        params: FailParams<C>,
    ) -> (r: Result<(), VerificationErrorWithToken<E, StateStarted>>)
        requires
            old(sender).usable(),
            old(self).ready(params.time_stamp()),
        ensures
            final(sender).usable(),
            ({
                let tm = old(self).failure_tm(8, token.req_id_spec(), None, &params);
                &&& Self::reported(
                    old(self),
                    final(self),
                    old(sender).sent(),
                    final(sender).sent(),
                    old(sender).offered(),
                    final(sender).offered(),
                    tm,
                    r.is_ok(),
                )
                &&& r matches Err(e) ==> e.1 == token && Self::refusal(old(self), tm, e.0)
            }),
    {
        let req_id = token.req_id;
        match self.report_failure::<E, V, crate::ecss::EcssEnumU8, C>(8, &req_id, sender, None, &params) {
            Ok(()) => Ok(()),
            Err(e) => Err(VerificationErrorWithToken(e, token)),
        }
    }
}


/// A reporter together with the sender that its reports go to. It offers the
/// calls of [`VerificationReporter`] without the sender argument.
pub struct VerificationReporterWithSender<E, V: VerificationSender<E>> {
    pub reporter: VerificationReporter,
    pub sender: V,
    pub error: PhantomData<E>,
}

impl<E, V: VerificationSender<E>> VerificationReporterWithSender<E, V> {
    /// What a call leaves behind, see [`VerificationReporter::reported`].
    pub open spec fn reported(before: &Self, after: &Self, tm: TmModel, ok: bool) -> bool {
        VerificationReporter::reported(
            &before.reporter,
            &after.reporter,
            before.sender.sent(),
            after.sender.sent(),
            before.sender.offered(),
            after.sender.offered(),
            tm,
            ok,
        )
    }

    pub fn new(cfg: VerificationReporterCfg, sender: V) -> (r: Self)
        requires
            4 + cfg.step_field_width + cfg.fail_code_field_width + cfg.max_fail_data_len <= usize::MAX,
        ensures
            r.sender == sender,
            r.reporter.apid == cfg.apid,
            r.reporter.dest_id == cfg.dest_id,
            r.reporter.msg_count() == 0,
            r.reporter.buf_len() == 4 + cfg.step_field_width + cfg.fail_code_field_width
                + cfg.max_fail_data_len,
    {
        Self::new_from_reporter(VerificationReporter::new(cfg), sender)
    }

    pub fn new_from_reporter(reporter: VerificationReporter, sender: V) -> (r: Self)
        ensures
            r.reporter == reporter,
            r.sender == sender,
    {
        Self { reporter, sender, error: PhantomData }
    }

    /// See [`VerificationReporter::add_tc`].
    pub fn add_tc(&mut self, pus_tc: &PusTc) -> (r: VerificationToken<StateNone>)
        ensures
            *final(self) == *old(self),
            r.req_id_spec()@ == RequestIdModel::of_header(pus_tc@.sph),
    {
        self.reporter.add_tc(pus_tc)
    }

    /// See [`VerificationReporter::add_tc_with_req_id`].
    pub fn add_tc_with_req_id(&mut self, req_id: RequestId) -> (r: VerificationToken<StateNone>)
        ensures
            *final(self) == *old(self),
            r.req_id_spec() == req_id,
    {
        self.reporter.add_tc_with_req_id(req_id)
    }

    /// See [`VerificationReporter::acceptance_success`].
    pub fn acceptance_success(&mut self, token: VerificationToken<StateNone>, time_stamp: &[u8]) -> (r:
        Result<VerificationToken<StateAccepted>, VerificationErrorWithToken<E, StateNone>>)
        requires
            old(self).sender.usable(),
            old(self).reporter.ready(time_stamp@),
        ensures
            final(self).sender.usable(),
            ({
                let tm = old(self).reporter.success_tm(1, token.req_id_spec(), time_stamp@, None);
                &&& Self::reported(old(self), final(self), tm, r.is_ok())
                &&& match r {
                    Ok(next) => next.req_id_spec() == token.req_id_spec(),
                    Err(e) => e.1 == token && VerificationReporter::refusal(&old(self).reporter, tm, e.0),
                }
            }),
    {
        self.reporter.acceptance_success(token, &mut self.sender, time_stamp)
    }

    /// See [`VerificationReporter::acceptance_failure`].
    pub fn acceptance_failure<C: EcssEnumeration>(
        &mut self,
        token: VerificationToken<StateNone>,
        params: FailParams<C>,
    ) -> (r: Result<(), VerificationErrorWithToken<E, StateNone>>)
        requires
            old(self).sender.usable(),
            old(self).reporter.ready(params.time_stamp()),
        ensures
            final(self).sender.usable(),
            ({
                let tm = old(self).reporter.failure_tm(2, token.req_id_spec(), None, &params);
                &&& Self::reported(old(self), final(self), tm, r.is_ok())
                &&& r matches Err(e) ==> e.1 == token && VerificationReporter::refusal(
                    &old(self).reporter,
                    tm,
                    e.0,
                )
            }),
    {
        self.reporter.acceptance_failure(token, &mut self.sender, params)
    }

    /// See [`VerificationReporter::start_success`].
    pub fn start_success(&mut self, token: VerificationToken<StateAccepted>, time_stamp: &[u8]) -> (r:
        Result<VerificationToken<StateStarted>, VerificationErrorWithToken<E, StateAccepted>>)
        requires
            old(self).sender.usable(),
            old(self).reporter.ready(time_stamp@),
        ensures
            final(self).sender.usable(),
            ({
                let tm = old(self).reporter.success_tm(3, token.req_id_spec(), time_stamp@, None);
                &&& Self::reported(old(self), final(self), tm, r.is_ok())
                &&& match r {
                    Ok(next) => next.req_id_spec() == token.req_id_spec(),
                    Err(e) => e.1 == token && VerificationReporter::refusal(&old(self).reporter, tm, e.0),
                }
            }),
    {
        self.reporter.start_success(token, &mut self.sender, time_stamp)
    }

    /// See [`VerificationReporter::start_failure`].
    pub fn start_failure<C: EcssEnumeration>(
        &mut self,
        token: VerificationToken<StateAccepted>,
        params: FailParams<C>,
    ) -> (r: Result<(), VerificationErrorWithToken<E, StateAccepted>>)
        requires
            old(self).sender.usable(),
            old(self).reporter.ready(params.time_stamp()),
        ensures
            final(self).sender.usable(),
            ({
                let tm = old(self).reporter.failure_tm(4, token.req_id_spec(), None, &params);
                &&& Self::reported(old(self), final(self), tm, r.is_ok())
                &&& r matches Err(e) ==> e.1 == token && VerificationReporter::refusal(
                    &old(self).reporter,
                    tm,
                    e.0,
                )
            }),
    {
        self.reporter.start_failure(token, &mut self.sender, params)
    }

    /// See [`VerificationReporter::step_success`].
    pub fn step_success<S: EcssEnumeration>(
        &mut self,
        token: &VerificationToken<StateStarted>,
        time_stamp: &[u8],
        step: S,
    ) -> (r: Result<(), VerificationError<E>>)
        requires
            old(self).sender.usable(),
            old(self).reporter.ready(time_stamp@),
        ensures
            final(self).sender.usable(),
            ({
                let tm = old(self).reporter.success_tm(
                    5,
                    token.req_id_spec(),
                    time_stamp@,
                    Some(step.raw_bytes()),
                );
                &&& Self::reported(old(self), final(self), tm, r.is_ok())
                &&& r matches Err(e) ==> VerificationReporter::refusal(&old(self).reporter, tm, e)
            }),
    {
        self.reporter.step_success(token, &mut self.sender, time_stamp, step)
    }

    /// See [`VerificationReporter::step_failure`].
    pub fn step_failure<S: EcssEnumeration, C: EcssEnumeration>(
        &mut self,
        token: VerificationToken<StateStarted>,
        params: FailParamsWithStep<S, C>,
    ) -> (r: Result<(), VerificationErrorWithToken<E, StateStarted>>)
        requires
            old(self).sender.usable(),
            old(self).reporter.ready(params.params().time_stamp()),
        ensures
            final(self).sender.usable(),
            ({
                let tm = old(self).reporter.failure_tm(
                    6,
                    token.req_id_spec(),
                    Some(params.step()),
                    &params.params(),
                );
                &&& Self::reported(old(self), final(self), tm, r.is_ok())
                &&& r matches Err(e) ==> e.1 == token && VerificationReporter::refusal(
                    &old(self).reporter,
                    tm,
                    e.0,
                )
            }),
    {
        self.reporter.step_failure(token, &mut self.sender, params)
    }

    /// See [`VerificationReporter::completion_success`].
    pub fn completion_success(&mut self, token: VerificationToken<StateStarted>, time_stamp: &[u8]) -> (r:
        Result<(), VerificationErrorWithToken<E, StateStarted>>)
        requires
            old(self).sender.usable(),
            old(self).reporter.ready(time_stamp@),
        ensures
            final(self).sender.usable(),
            ({
                let tm = old(self).reporter.success_tm(7, token.req_id_spec(), time_stamp@, None);
                &&& Self::reported(old(self), final(self), tm, r.is_ok())
                &&& r matches Err(e) ==> e.1 == token && VerificationReporter::refusal(
                    &old(self).reporter,
                    tm,
                    e.0,
                )
            }),
    {
        self.reporter.completion_success(token, &mut self.sender, time_stamp)
    }

    /// See [`VerificationReporter::completion_failure`].
    pub fn completion_failure<C: EcssEnumeration>(
        &mut self,
        token: VerificationToken<StateStarted>,
        params: FailParams<C>,
    ) -> (r: Result<(), VerificationErrorWithToken<E, StateStarted>>)
        requires
            old(self).sender.usable(),
            old(self).reporter.ready(params.time_stamp()),
        ensures
            final(self).sender.usable(),
            ({
                let tm = old(self).reporter.failure_tm(8, token.req_id_spec(), None, &params);
                &&& Self::reported(old(self), final(self), tm, r.is_ok())
                &&& r matches Err(e) ==> e.1 == token && VerificationReporter::refusal(
                    &old(self).reporter,
                    tm,
                    e.0,
                )
            }),
    {
        self.reporter.completion_failure(token, &mut self.sender, params)
    }
}


/// The state of an accepted telecommand, under the name that the service handlers use.
pub type TcStateAccepted = StateAccepted;

/// The state of a started telecommand, under the name that the service handlers use.
pub type TcStateStarted = StateStarted;

/// The state of a telecommand that was added and not accepted yet.
pub type TcStateNone = StateNone;

/// A token whose state is known at run time only.
#[derive(Debug, Clone, Copy, PartialEq, Eq)]
pub enum TcStateToken {
    Init(VerificationToken<StateNone>),
    Accepted(VerificationToken<StateAccepted>),
    Started(VerificationToken<StateStarted>),
}

/// A token was asked for in a state that it is not in.
#[derive(Debug, Clone, Copy, PartialEq, Eq, Structural)]
pub struct InvalidVerificationToken {}

impl TcStateToken {
    /// The request id of the token.
    pub open spec fn req_id_spec(self) -> RequestId {
        match self {
            TcStateToken::Init(t) => t.req_id_spec(),
            TcStateToken::Accepted(t) => t.req_id_spec(),
            TcStateToken::Started(t) => t.req_id_spec(),
        }
    }

    pub fn from_init(token: VerificationToken<StateNone>) -> (r: Self)
        ensures
            r == TcStateToken::Init(token),
    {
        TcStateToken::Init(token)
    }

    pub fn from_accepted(token: VerificationToken<StateAccepted>) -> (r: Self)
        ensures
            r == TcStateToken::Accepted(token),
    {
        TcStateToken::Accepted(token)
    }

    pub fn from_started(token: VerificationToken<StateStarted>) -> (r: Self)
        ensures
            r == TcStateToken::Started(token),
    {
        TcStateToken::Started(token)
    }

    /// The token of an accepted telecommand; a token in another state is refused.
    pub fn try_into_accepted(self) -> (r: Result<VerificationToken<StateAccepted>, InvalidVerificationToken>)
        ensures
            match self {
                TcStateToken::Accepted(t) => r == Ok::<
                    VerificationToken<StateAccepted>,
                    InvalidVerificationToken,
                >(t),
                _ => r.is_err(),
            },
    {
        match self {
            TcStateToken::Accepted(t) => Ok(t),
            _ => Err(InvalidVerificationToken {  }),
        }
    }

    /// The token of a started telecommand; a token in another state is refused.
    pub fn try_into_started(self) -> (r: Result<VerificationToken<StateStarted>, InvalidVerificationToken>)
        ensures
            match self {
                TcStateToken::Started(t) => r == Ok::<
                    VerificationToken<StateStarted>,
                    InvalidVerificationToken,
                >(t),
                _ => r.is_err(),
            },
    {
        match self {
            TcStateToken::Started(t) => Ok(t),
            _ => Err(InvalidVerificationToken {  }),
        }
    }
}

} // verus!
