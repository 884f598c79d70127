//! PUS service 5: event reports.
//!
//! An event goes out as TM[5, 1] to TM[5, 4], by its severity. The source data
//! is the event id, followed by the auxiliary data where there is any.
use crate::ecss::EcssEnumeration;
use crate::spacepackets::{
    copy_into, ByteConversionError, PusError, SizeMissmatch, SpHeader, MAX_APID,
};
use crate::tm::{PusTm, PusTmSecondaryHeader, TmModel};
use crate::verification::TimestampError;
use vstd::prelude::*;

verus! {

/// The subservices of service 5.
#[derive(Debug, Eq, PartialEq, Copy, Clone, Structural)]
pub enum Subservices {
    TmInfoReport,
    TmLowSeverityReport,
    TmMediumSeverityReport,
    TmHighSeverityReport,
    TcEnableEventGeneration,
    TcDisableEventGeneration,
    TcReportDisabledList,
    TmDisabledEventsReport,
}

impl Subservices {
    /// The number of the subservice.
    pub open spec fn number(self) -> u8 {
        match self {
            Subservices::TmInfoReport => 1,
            Subservices::TmLowSeverityReport => 2,
            Subservices::TmMediumSeverityReport => 3,
            Subservices::TmHighSeverityReport => 4,
            Subservices::TcEnableEventGeneration => 5,
            Subservices::TcDisableEventGeneration => 6,
            Subservices::TcReportDisabledList => 7,
            Subservices::TmDisabledEventsReport => 8,
        }
    }

    pub fn as_u8(self) -> (r: u8)
        ensures
            r == self.number(),
    {
        match self {
            Subservices::TmInfoReport => 1,
            Subservices::TmLowSeverityReport => 2,
            Subservices::TmMediumSeverityReport => 3,
            Subservices::TmHighSeverityReport => 4,
            Subservices::TcEnableEventGeneration => 5,
            Subservices::TcDisableEventGeneration => 6,
            Subservices::TcReportDisabledList => 7,
            Subservices::TmDisabledEventsReport => 8,
        }
    }

    /// The subservice with the given number, if there is one.
    pub fn from_u8(number: u8) -> (r: Option<Subservices>)
        ensures
            match r {
                Some(s) => s.number() == number,
                None => number == 0 || number > 8,
            },
    {
        match number {
            1 => Some(Subservices::TmInfoReport),
            2 => Some(Subservices::TmLowSeverityReport),
            3 => Some(Subservices::TmMediumSeverityReport),
            4 => Some(Subservices::TmHighSeverityReport),
            5 => Some(Subservices::TcEnableEventGeneration),
            6 => Some(Subservices::TcDisableEventGeneration),
            7 => Some(Subservices::TcReportDisabledList),
            8 => Some(Subservices::TmDisabledEventsReport),
            _ => None,
        }
    }
}

/// What can go wrong when telemetry is built and sent; `E` is the error of the sender.
#[derive(Debug, Clone)]
pub enum EcssTmError<E> {
    /// The sender could not send the packet.
    SendError(E),
    /// Errors related to the time stamp of the packet.
    TimestampError(TimestampError),
    /// The source data does not fit its buffer.
    ByteConversionError(ByteConversionError),
    /// Errors of the packet format.
    PusError(PusError),
}

/// Sends telemetry to whoever collects it.
///
/// `sent` is the list of packets sent with success, oldest first.
///
/// `offered` is the list of the packets that the sender was asked to send,
/// with success or without, oldest first.
pub trait EcssTmSender<E> {
    open spec fn sent(&self) -> Seq<TmModel> {
        arbitrary()
    }

    open spec fn offered(&self) -> Seq<TmModel> {
        arbitrary()
    }

    /// The invariant of the sender.
    open spec fn usable(&self) -> bool {
        true
    }

    /// Sends one packet. A packet that could not be sent leaves no trace but
    /// in what was offered, and the error is a send error.
    fn send_tm(&mut self, tm: PusTm) -> (r: Result<(), EcssTmError<E>>)
        requires
            old(self).usable(),
            tm.wf(),
        ensures
            final(self).usable(),
            final(self).offered() == old(self).offered().push(tm@),
            r.is_ok() ==> final(self).sent() == old(self).sent().push(tm@),
            r.is_err() ==> final(self).sent() == old(self).sent(),
            r matches Err(e) ==> e is SendError,
    ;
}

/// The error of source data of `len` bytes that does not fit `cap` bytes.
pub open spec fn size_error(cap: usize, len: usize) -> ByteConversionError {
    ByteConversionError::ToSliceTooSmall(SizeMissmatch { found: cap, expected: len })
}

/// Checks that source data of `len` bytes fits a buffer of `cap` bytes.
pub fn source_buffer_large_enough<E>(cap: usize, len: usize) -> (r: Result<(), EcssTmError<E>>)
    ensures
        match r {
            Ok(()) => len <= cap,
            Err(EcssTmError::ByteConversionError(e)) => len > cap && e == size_error(cap, len),
            Err(_) => false,
        },
{
    if len > cap {
        return Err(
            EcssTmError::ByteConversionError(
                ByteConversionError::ToSliceTooSmall(SizeMissmatch { found: cap, expected: len }),
            ),
        );
    }
    Ok(())
}

/// The source data of an event report.
pub open spec fn event_source_data(event_id: Seq<u8>, aux_data: Option<Seq<u8>>) -> Seq<u8> {
    event_id + crate::verification::opt_bytes(aux_data)
}

/// The length of the source data as the reporter counts it: the largest
/// `usize` where the length is larger.
pub open spec fn clamp_len(n: nat) -> usize {
    if n <= usize::MAX {
        n as usize
    } else {
        usize::MAX
    }
}

fn sat_add(a: usize, b: usize) -> (r: usize)
    ensures
        r == clamp_len((a + b) as nat),
{
    if b > usize::MAX - a {
        usize::MAX
    } else {
        a + b
    }
}

/// Builds and sends event reports with a buffer that the caller provides.
pub struct EventReporterBase {
    pub msg_count: u16,
    pub apid: u16,
    pub dest_id: u16,
}

impl EventReporterBase {
    /// The report that the reporter would build now.
    pub open spec fn event_tm(
        &self,
        subservice: Subservices,
        time_stamp: Seq<u8>,
        event_id: Seq<u8>,
        aux_data: Option<Seq<u8>>,
    ) -> TmModel {
        crate::tm::report_tm(
            self.apid,
            5,
            subservice.number(),
            self.msg_count,
            self.dest_id,
            time_stamp,
            event_source_data(event_id, aux_data),
        )
    }

    /// What a call needs: an APID of 11 bits and a packet length that a `usize` can say.
    pub open spec fn ready(&self, buf_len: nat, time_stamp: Seq<u8>) -> bool {
        &&& self.apid <= MAX_APID
        &&& crate::tm::PUS_TM_MIN_LEN + time_stamp.len() + buf_len <= usize::MAX
    }

    /// What a reporting call leaves behind. A report whose source data fits
    /// the buffer is offered to the sender, once; one that does not fit is
    /// never offered. With success the report was sent and counted; else
    /// nothing was sent and the count stays.
    pub open spec fn reported(
        before: &Self,
        after: &Self,
        buf_len: nat,
        sent_before: Seq<TmModel>,
        sent_after: Seq<TmModel>,
        offered_before: Seq<TmModel>,
        offered_after: Seq<TmModel>,
        tm: TmModel,
        ok: bool,
    ) -> bool {
        &&& after.apid == before.apid
        &&& after.dest_id == before.dest_id
        &&& if tm.source_data.len() <= buf_len {
            offered_after == offered_before.push(tm)
        } else {
            !ok && offered_after == offered_before
        }
        &&& if ok {
            sent_after == sent_before.push(tm) && after.msg_count == crate::verification::next_count(
                before.msg_count,
            )
        } else {
            sent_after == sent_before && after.msg_count == before.msg_count
        }
    }

    /// The error of a reporting call: for a report that does not fit the
    /// buffer it says so, with both lengths; for one that fits it is the
    /// error of the sender.
    pub open spec fn refusal<E>(buf_len: nat, tm: TmModel, e: EcssTmError<E>) -> bool {
        if tm.source_data.len() > buf_len {
            e matches EcssTmError::ByteConversionError(b) && b == size_error(
                buf_len as usize,
                clamp_len(tm.source_data.len()),
            )
        } else {
            e is SendError
        }
    }

    /// What is done with the answer of the sender: a report that was sent is
    /// counted, and the answer is handed on.
    pub fn count_sent<E>(&mut self, answer: Result<(), EcssTmError<E>>) -> (r: Result<(), EcssTmError<E>>)
        ensures
            r == answer,
            final(self).apid == old(self).apid,
            final(self).dest_id == old(self).dest_id,
            final(self).msg_count == (if answer.is_ok() {
                crate::verification::next_count(old(self).msg_count)
            } else {
                old(self).msg_count
            }),
    {
        if answer.is_ok() {
            self.msg_count = if self.msg_count == u16::MAX {
                0
            } else {
                self.msg_count + 1
            };
        }
        answer
    }

    /// `None` where `apid` has more than 11 bits.
    pub fn new(apid: u16) -> (r: Option<Self>)
        ensures
            match r {
                Some(rep) => apid <= MAX_APID && rep.apid == apid && rep.msg_count == 0 && rep.dest_id == 0,
                None => apid > MAX_APID,
            },
    {
        if apid > MAX_APID {
            return None;
        }
        Some(Self { msg_count: 0, dest_id: 0, apid })
    }

    /// Reports an event of severity info, TM[5, 1].
    pub fn event_info<E, V: EcssTmSender<E>, I: EcssEnumeration>(
        &mut self,
        buf: &mut [u8],
        sender: &mut V,
        time_stamp: &[u8],
        event_id: I,
        aux_data: Option<&[u8]>,
    ) -> (r: Result<(), EcssTmError<E>>)
        requires
            old(sender).usable(),
            old(self).ready(old(buf)@.len(), time_stamp@),
        ensures
            final(sender).usable(),
            final(buf)@.len() == old(buf)@.len(),
            ({
                let tm = old(self).event_tm(
                    Subservices::TmInfoReport,
                    time_stamp@,
                    event_id.raw_bytes(),
                    crate::pus_event::opt_view(aux_data),
                );
                &&& Self::reported(
                    old(self),
                    final(self),
                    old(buf)@.len(),
                    old(sender).sent(),
                    final(sender).sent(),
                    old(sender).offered(),
                    final(sender).offered(),
                    tm,
                    r.is_ok(),
                )
                &&& r matches Err(e) ==> Self::refusal(old(buf)@.len(), tm, e)
            }),
    {
        self.generate_and_send_generic_tm(
            buf,
            Subservices::TmInfoReport,
            sender,
            time_stamp,
            event_id,
            aux_data,
        )
    }

    /// Reports an event of low severity, TM[5, 2].
    pub fn event_low_severity<E, V: EcssTmSender<E>, I: EcssEnumeration>(
        &mut self,
        buf: &mut [u8],
        sender: &mut V,
        time_stamp: &[u8],
        event_id: I,
        aux_data: Option<&[u8]>,
    ) -> (r: Result<(), EcssTmError<E>>)
        requires
            old(sender).usable(),
            old(self).ready(old(buf)@.len(), time_stamp@),
        ensures
            final(sender).usable(),
            final(buf)@.len() == old(buf)@.len(),
            ({
                let tm = old(self).event_tm(
                    Subservices::TmLowSeverityReport,
                    time_stamp@,
                    event_id.raw_bytes(),
                    crate::pus_event::opt_view(aux_data),
                );
                &&& Self::reported(
                    old(self),
                    final(self),
                    old(buf)@.len(),
                    old(sender).sent(),
                    final(sender).sent(),
                    old(sender).offered(),
                    final(sender).offered(),
                    tm,
                    r.is_ok(),
                )
                &&& r matches Err(e) ==> Self::refusal(old(buf)@.len(), tm, e)
            }),
    {
        self.generate_and_send_generic_tm(
            buf,
            Subservices::TmLowSeverityReport,
            sender,
            time_stamp,
            event_id,
            aux_data,
        )
    }

    /// Reports an event of medium severity, TM[5, 3].
    pub fn event_medium_severity<E, V: EcssTmSender<E>, I: EcssEnumeration>(
        &mut self,
        buf: &mut [u8],
        sender: &mut V,
        time_stamp: &[u8],
        event_id: I,
        aux_data: Option<&[u8]>,
    ) -> (r: Result<(), EcssTmError<E>>)
        requires
            old(sender).usable(),
            old(self).ready(old(buf)@.len(), time_stamp@),
        ensures
            final(sender).usable(),
            final(buf)@.len() == old(buf)@.len(),
            ({
                let tm = old(self).event_tm(
                    Subservices::TmMediumSeverityReport,
                    time_stamp@,
                    event_id.raw_bytes(),
                    crate::pus_event::opt_view(aux_data),
                );
                &&& Self::reported(
                    old(self),
                    final(self),
                    old(buf)@.len(),
                    old(sender).sent(),
                    final(sender).sent(),
                    old(sender).offered(),
                    final(sender).offered(),
                    tm,
                    r.is_ok(),
                )
                &&& r matches Err(e) ==> Self::refusal(old(buf)@.len(), tm, e)
            }),
    {
        self.generate_and_send_generic_tm(
            buf,
            Subservices::TmMediumSeverityReport,
            sender,
            time_stamp,
            event_id,
            aux_data,
        )
    }

    /// Reports an event of high severity, TM[5, 4].
    pub fn event_high_severity<E, V: EcssTmSender<E>, I: EcssEnumeration>(
        &mut self,
        buf: &mut [u8],
        sender: &mut V,
        time_stamp: &[u8],
        event_id: I,
        aux_data: Option<&[u8]>,
    ) -> (r: Result<(), EcssTmError<E>>)
        requires
            old(sender).usable(),
            old(self).ready(old(buf)@.len(), time_stamp@),
        ensures
            final(sender).usable(),
            final(buf)@.len() == old(buf)@.len(),
            ({
                let tm = old(self).event_tm(
                    Subservices::TmHighSeverityReport,
                    time_stamp@,
                    event_id.raw_bytes(),
                    crate::pus_event::opt_view(aux_data),
                );
                &&& Self::reported(
                    old(self),
                    final(self),
                    old(buf)@.len(),
                    old(sender).sent(),
                    final(sender).sent(),
                    old(sender).offered(),
                    final(sender).offered(),
                    tm,
                    r.is_ok(),
                )
                &&& r matches Err(e) ==> Self::refusal(old(buf)@.len(), tm, e)
            }),
    {
        self.generate_and_send_generic_tm(
            buf,
            Subservices::TmHighSeverityReport,
            sender,
            time_stamp,
            event_id,
            aux_data,
        )
    }

    /// Builds the report of an event, sends it and counts it.
    pub fn generate_and_send_generic_tm<E, V: EcssTmSender<E>, I: EcssEnumeration>(
        &mut self,
        buf: &mut [u8],
        subservice: Subservices,
        sender: &mut V,
        time_stamp: &[u8],
        event_id: I,
        aux_data: Option<&[u8]>,
    ) -> (r: Result<(), EcssTmError<E>>)
        requires
            old(sender).usable(),
            old(self).ready(old(buf)@.len(), time_stamp@),
        ensures
            final(sender).usable(),
            final(buf)@.len() == old(buf)@.len(),
            ({
                let tm = old(self).event_tm(
                    subservice,
                    time_stamp@,
                    event_id.raw_bytes(),
                    crate::pus_event::opt_view(aux_data),
                );
                &&& Self::reported(
                    old(self),
                    final(self),
                    old(buf)@.len(),
                    old(sender).sent(),
                    final(sender).sent(),
                    old(sender).offered(),
                    final(sender).offered(),
                    tm,
                    r.is_ok(),
                )
                &&& r matches Err(e) ==> Self::refusal(old(buf)@.len(), tm, e)
            }),
    {
        let tm = self.generate_generic_event_tm::<E, I>(buf, subservice, time_stamp, event_id, aux_data)?;
        let answer = sender.send_tm(tm);
        self.count_sent(answer)
    }

    /// Builds the report of an event in `buf`.
    pub fn generate_generic_event_tm<E, I: EcssEnumeration>(
        &self,
        buf: &mut [u8],
        subservice: Subservices,
        time_stamp: &[u8],
        event_id: I,
        aux_data: Option<&[u8]>,
    ) -> (r: Result<PusTm, EcssTmError<E>>)
        requires
            self.ready(old(buf)@.len(), time_stamp@),
        ensures
            final(buf)@.len() == old(buf)@.len(),
            ({
                let want = self.event_tm(
                    subservice,
                    time_stamp@,
                    event_id.raw_bytes(),
                    crate::pus_event::opt_view(aux_data),
                );
                match r {
                    Ok(tm) => tm.wf() && tm@ == want && want.source_data.len() <= old(buf)@.len(),
                    Err(EcssTmError::ByteConversionError(e)) => {
                        &&& want.source_data.len() > old(buf)@.len()
                        &&& e == size_error(old(buf)@.len() as usize, clamp_len(want.source_data.len()))
                    },
                    Err(_) => false,
                }
            }),
    {
        let id_width = event_id.byte_width();
        let mut src_data_len = id_width;
        if let Some(aux_data) = aux_data {
            src_data_len = sat_add(src_data_len, aux_data.len());
        }
        source_buffer_large_enough::<E>(buf.len(), src_data_len)?;
        let mut sp_header = SpHeader::tm(self.apid, 0, 0).unwrap();
        let sec_header = PusTmSecondaryHeader::new(
            5,
            subservice.as_u8(),
            self.msg_count,
            self.dest_id,
            time_stamp,
        );
        let mut scratch: Vec<u8> = Vec::new();
        let mut k: usize = 0;
        while k < id_width
            invariant
                k <= id_width,
                scratch@.len() == k,
            decreases id_width - k,
        {
            scratch.push(0u8);
            k += 1;
        }
        let written = event_id.write_to_be_bytes(scratch.as_mut_slice());
        assert(scratch@ =~= event_id.raw_bytes());
        copy_into(buf, 0, scratch.as_slice());
        let mut current_idx = id_width;
        if let Some(aux_data) = aux_data {
            copy_into(buf, current_idx, aux_data);
            current_idx += aux_data.len();
        }
        let data = vstd::slice::slice_subrange(buf, 0, current_idx);
        assert(data@ =~= event_source_data(event_id.raw_bytes(), crate::pus_event::opt_view(aux_data)));
        Ok(PusTm::new(&mut sp_header, sec_header, Some(data), true))
    }
}

/// The bytes behind an optional slice.
pub open spec fn opt_view(data: Option<&[u8]>) -> Option<Seq<u8>> {
    match data {
        Some(d) => Some(d@),
        None => None,
    }
}

/// Builds and sends event reports with a buffer of its own.
pub struct EventReporter {
    pub source_data_buf: Vec<u8>,
    pub reporter: EventReporterBase,
}

impl EventReporter {
    /// What a reporting call leaves behind, see [`EventReporterBase::reported`].
    pub open spec fn reported(
        before: &Self,
        after: &Self,
        sent_before: Seq<TmModel>,
        sent_after: Seq<TmModel>,
        offered_before: Seq<TmModel>,
        offered_after: Seq<TmModel>,
        tm: TmModel,
        ok: bool,
    ) -> bool {
        &&& after.source_data_buf@.len() == before.source_data_buf@.len()
        &&& EventReporterBase::reported(
            &before.reporter,
            &after.reporter,
            before.source_data_buf@.len(),
            sent_before,
            sent_after,
            offered_before,
            offered_after,
            tm,
            ok,
        )
    }

    pub open spec fn ready(&self, time_stamp: Seq<u8>) -> bool {
        self.reporter.ready(self.source_data_buf@.len(), time_stamp)
    }

    /// A reporter whose event id and auxiliary data together have at most
    /// `max_event_id_and_aux_data` bytes; `None` where `apid` has more than 11 bits.
    pub fn new(apid: u16, max_event_id_and_aux_data: usize) -> (r: Option<Self>)
        ensures
            match r {
                Some(rep) => {
                    &&& apid <= MAX_APID
                    &&& rep.reporter.apid == apid
                    &&& rep.reporter.msg_count == 0
                    &&& rep.reporter.dest_id == 0
                    &&& rep.source_data_buf@.len() == max_event_id_and_aux_data
                },
                None => apid > MAX_APID,
            },
    {
        let reporter = EventReporterBase::new(apid)?;
        let mut buf: Vec<u8> = Vec::new();
        let mut k: usize = 0;
        while k < max_event_id_and_aux_data
            invariant
                k <= max_event_id_and_aux_data,
                buf@.len() == k,
            decreases max_event_id_and_aux_data - k,
        {
            buf.push(0u8);
            k += 1;
        }
        Some(Self { source_data_buf: buf, reporter })
    }

    /// Reports an event of severity info, TM[5, 1].
    pub fn event_info<E, V: EcssTmSender<E>, I: EcssEnumeration>(
        &mut self,
        sender: &mut V,
        time_stamp: &[u8],
        event_id: I,
        aux_data: Option<&[u8]>,
    ) -> (r: Result<(), EcssTmError<E>>)
        requires
            old(sender).usable(),
            old(self).ready(time_stamp@),
        ensures
            final(sender).usable(),
            ({
                let tm = old(self).reporter.event_tm(
                    Subservices::TmInfoReport,
                    time_stamp@,
                    event_id.raw_bytes(),
                    crate::pus_event::opt_view(aux_data),
                );
                &&& Self::reported(
                    old(self),
                    final(self),
                    old(sender).sent(),
                    final(sender).sent(),
                    old(sender).offered(),
                    final(sender).offered(),
                    tm,
                    r.is_ok(),
                )
                &&& r matches Err(e) ==> EventReporterBase::refusal(old(self).source_data_buf@.len(), tm, e)
            }),
    {
        self.reporter.event_info(
            self.source_data_buf.as_mut_slice(),
            sender,
            time_stamp,
            event_id,
            aux_data,
        )
    }

    /// Reports an event of low severity, TM[5, 2].
    pub fn event_low_severity<E, V: EcssTmSender<E>, I: EcssEnumeration>(
        &mut self,
        sender: &mut V,
        time_stamp: &[u8],
        event_id: I,
        aux_data: Option<&[u8]>,
    ) -> (r: Result<(), EcssTmError<E>>)
        requires
            old(sender).usable(),
            old(self).ready(time_stamp@),
        ensures
            final(sender).usable(),
            ({
                let tm = old(self).reporter.event_tm(
                    Subservices::TmLowSeverityReport,
                    time_stamp@,
                    event_id.raw_bytes(),
                    crate::pus_event::opt_view(aux_data),
                );
                &&& Self::reported(
                    old(self),
                    final(self),
                    old(sender).sent(),
                    final(sender).sent(),
                    old(sender).offered(),
                    final(sender).offered(),
                    tm,
                    r.is_ok(),
                )
                &&& r matches Err(e) ==> EventReporterBase::refusal(old(self).source_data_buf@.len(), tm, e)
            }),
    {
        self.reporter.event_low_severity(
            self.source_data_buf.as_mut_slice(),
            sender,
            time_stamp,
            event_id,
            aux_data,
        )
    }

    /// Reports an event of medium severity, TM[5, 3].
    pub fn event_medium_severity<E, V: EcssTmSender<E>, I: EcssEnumeration>(
        &mut self,
        sender: &mut V,
        time_stamp: &[u8],
        event_id: I,
        aux_data: Option<&[u8]>,
    ) -> (r: Result<(), EcssTmError<E>>)
        requires
            old(sender).usable(),
            old(self).ready(time_stamp@),
        ensures
            final(sender).usable(),
            ({
                let tm = old(self).reporter.event_tm(
                    Subservices::TmMediumSeverityReport,
                    time_stamp@,
                    event_id.raw_bytes(),
                    crate::pus_event::opt_view(aux_data),
                );
                &&& Self::reported(
                    old(self),
                    final(self),
                    old(sender).sent(),
                    final(sender).sent(),
                    old(sender).offered(),
                    final(sender).offered(),
                    tm,
                    r.is_ok(),
                )
                &&& r matches Err(e) ==> EventReporterBase::refusal(old(self).source_data_buf@.len(), tm, e)
            }),
    {
        self.reporter.event_medium_severity(
            self.source_data_buf.as_mut_slice(),
            sender,
            time_stamp,
            event_id,
            aux_data,
        )
    }

    /// Reports an event of high severity, TM[5, 4].
    pub fn event_high_severity<E, V: EcssTmSender<E>, I: EcssEnumeration>(
        &mut self,
        sender: &mut V,
        time_stamp: &[u8],
        event_id: I,
        aux_data: Option<&[u8]>,
    ) -> (r: Result<(), EcssTmError<E>>)
        requires
            old(sender).usable(),
            old(self).ready(time_stamp@),
        ensures
            final(sender).usable(),
            ({
                let tm = old(self).reporter.event_tm(
                    Subservices::TmHighSeverityReport,
                    time_stamp@,
                    event_id.raw_bytes(),
                    crate::pus_event::opt_view(aux_data),
                );
                &&& Self::reported(
                    old(self),
                    final(self),
                    old(sender).sent(),
                    final(sender).sent(),
                    old(sender).offered(),
                    final(sender).offered(),
                    tm,
                    r.is_ok(),
                )
                &&& r matches Err(e) ==> EventReporterBase::refusal(old(self).source_data_buf@.len(), tm, e)
            }),
    {
        self.reporter.event_high_severity(
            self.source_data_buf.as_mut_slice(),
            sender,
            time_stamp,
            event_id,
            aux_data,
        )
    }
}

} // verus!
