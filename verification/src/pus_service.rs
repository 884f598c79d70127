//! The frame of a PUS service handler: it takes telecommands from a receiver,
//! reports their verification and sends telemetry.
use crate::pool::{StoreAddr, StoreError};
use crate::pus::{PusTmWrapper, 
    EcssTcReceiverCore, EcssTmSenderCore, EcssTmtcError, GenericRecvError, ReceivedTcWrapper,
    TmWrapperModel,
};
use crate::spacepackets::{PusError, MAX_APID};
use crate::tc::PusTc;
use crate::time::{StdTimestampError, TimeProvider};
use crate::tm::TmModel;
use crate::res_code::ResultU16;
use crate::verification::{
    FailParams, StateAccepted, StateStarted, TcStateToken, VerificationReporterWithSender,
    VerificationSender, VerificationToken,
};
use vstd::prelude::*;

verus! {

/// Why a telecommand could not be handled.
#[derive(Debug)]
pub enum PusPacketHandlingError {
    /// The telecommand is no valid PUS packet.
    Pus(PusError),
    /// The telecommand is for another service than the handler's.
    WrongService(u8),
    InvalidSubservice(u8),
    NotEnoughAppData(String),
    InvalidAppData(String),
    /// The telecommand could not be received, or telemetry could not be sent.
    EcssTmtc(EcssTmtcError),
    /// The token of the telecommand is missing or not in the state that the handler needs.
    InvalidVerificationToken,
    StoreError(StoreError),
    RwGuardError(String),
    /// The queue of telecommands has no sender any more.
    QueueDisconnected,
    Other(String),
}

/// What went wrong while a telecommand was handled all the same.
#[derive(Debug)]
pub enum PartialPusHandlingError {
    /// The current time could not be had; the time stamp is zero.
    Time(StdTimestampError),
    /// Telemetry could not be sent.
    TmSend(EcssTmtcError),
    /// A verification report could not be sent.
    Verification,
    NoVerificationToken,
}

/// What the handling of a telecommand came to.
#[derive(Debug)]
pub enum PusPacketHandlerResult {
    RequestHandled,
    RequestHandledPartialSuccess(PartialPusHandlingError),
    SubserviceNotImplemented(u8, TcStateToken),
    CustomSubservice(u8, TcStateToken),
    /// There was no telecommand to handle.
    Empty,
}

impl PusPacketHandlerResult {
    pub fn from_partial_error(value: PartialPusHandlingError) -> (r: Self)
        ensures
            r matches PusPacketHandlerResult::RequestHandledPartialSuccess(e) && e == value,
    {
        PusPacketHandlerResult::RequestHandledPartialSuccess(value)
    }
}

/// Size of the buffer that a handler reads telecommands into.
pub const PUS_BUF_LEN: usize = 2048;

/// What every service handler has: where its telecommands come from, where
/// its telemetry goes, and the reporter of verification.
pub struct PusServiceBase<E, R, S, V> where
    R: EcssTcReceiverCore,
    S: EcssTmSenderCore,
    V: VerificationSender<E>,
 {
    pub tc_receiver: R,
    pub tm_sender: S,
    pub tm_apid: u16,
    pub verification_handler: VerificationReporterWithSender<E, V>,
    pub stamp_buf: [u8; 7],
    pub pus_buf: Vec<u8>,
    pub pus_size: usize,
    /// What was sent through the sending functions of the base, reports and
    /// other telemetry in the order in which they were sent.
    pub order: Ghost<Seq<SentItem>>,
}

/// One packet that a service handler has sent: a verification report, or
/// other telemetry.
pub enum SentItem {
    Report(TmModel),
    Telemetry(TmWrapperModel),
}

/// A time stamp of seven zeroes.
pub open spec fn zero_stamp() -> Seq<u8> {
    Seq::new(7, |i: int| 0u8)
}

/// `stamp` is the time stamp of a time that the clock can show: the seven
/// bytes of a time code for a time after the Unix epoch.
pub open spec fn clock_stamp(stamp: Seq<u8>) -> bool {
    exists|p: TimeProvider| p.after_epoch() && stamp == p.bytes()
}

/// `stamp` is a time stamp as a handler makes it from the clock: that of a
/// time that the clock can show, or seven zeroes where the time could not be
/// had.
pub open spec fn stamp_from_clock(stamp: Seq<u8>, time_error: bool) -> bool {
    &&& stamp.len() == 7
    &&& if time_error {
        stamp == zero_stamp()
    } else {
        clock_stamp(stamp)
    }
}

/// The errors of an attempt to receive a telecommand: a closed queue, a
/// telecommand that could not be read, a token that is missing or in another
/// state than accepted.
pub open spec fn receive_failure(e: PusPacketHandlingError) -> bool {
    e is QueueDisconnected || e is EcssTmtc || e is InvalidVerificationToken
}

/// The result of a handling with the time of the clock: that of the
/// handling, but where the time could not be had a request that was handled
/// is handled with partial success and the error of the clock.
pub open spec fn result_with_time(
    inner: Result<PusPacketHandlerResult, PusPacketHandlingError>,
    time_error: bool,
    r: Result<PusPacketHandlerResult, PusPacketHandlingError>,
) -> bool {
    if time_error && inner matches Ok(PusPacketHandlerResult::RequestHandled) {
        r matches Ok(
            PusPacketHandlerResult::RequestHandledPartialSuccess(PartialPusHandlingError::Time(_)),
        )
    } else {
        r == inner
    }
}

/// The result of a handler that found no telecommand to handle: it says that
/// the queue is empty, or why nothing could be received.
pub open spec fn nothing_handled(r: Result<PusPacketHandlerResult, PusPacketHandlingError>) -> bool {
    match r {
        Ok(PusPacketHandlerResult::Empty) => true,
        Ok(_) => false,
        Err(e) => receive_failure(e),
    }
}

impl<E, R, S, V> PusServiceBase<E, R, S, V> where
    R: EcssTcReceiverCore,
    S: EcssTmSenderCore,
    V: VerificationSender<E>,
 {
    /// The handler can work: receiver and senders are in order, the APIDs have
    /// 11 bits, and a report with a time stamp of seven bytes has a length that a
    /// `usize` can say.
    pub open spec fn wf(&self) -> bool {
        &&& self.tc_receiver.usable()
        &&& self.tm_sender.usable()
        &&& self.verification_handler.sender.usable()
        &&& self.tm_apid <= MAX_APID
        &&& self.verification_handler.reporter.apid <= MAX_APID
        &&& crate::tm::PUS_TM_MIN_LEN + 7 + self.verification_handler.reporter.buf_len() <= usize::MAX
        &&& self.pus_buf@.len() == PUS_BUF_LEN
    }

    /// A report with the given time stamp can be built: its length is one
    /// that a `usize` can say. A time stamp of seven bytes can always be taken.
    pub open spec fn takes_stamp(&self, time_stamp: Seq<u8>) -> bool {
        self.verification_handler.reporter.ready(time_stamp)
    }

    /// The verification reports sent so far.
    pub open spec fn vlog(&self) -> Seq<TmModel> {
        self.verification_handler.sender.sent()
    }

    /// The other telemetry sent so far.
    pub open spec fn tmlog(&self) -> Seq<TmWrapperModel> {
        self.tm_sender.sent()
    }

    /// What was sent through the sending functions of the base, reports and
    /// other telemetry in the order in which they were sent.
    pub open spec fn sent_order(&self) -> Seq<SentItem> {
        self.order@
    }

    /// Nothing but the message counter of the reporter, the logs of the senders
    /// and the buffers has changed.
    pub open spec fn same_setup(&self, before: &Self) -> bool {
        &&& self.tm_apid == before.tm_apid
        &&& self.verification_handler.reporter.same_setup(&before.verification_handler.reporter)
    }

    pub fn new(
        tc_receiver: R,
        tm_sender: S,
        tm_apid: u16,
        verification_handler: VerificationReporterWithSender<E, V>,
    ) -> (r: Self)
        ensures
            r.tc_receiver == tc_receiver,
            r.tm_sender == tm_sender,
            r.tm_apid == tm_apid,
            r.verification_handler == verification_handler,
            r.stamp_buf@ == zero_stamp(),
            r.pus_buf@.len() == PUS_BUF_LEN,
            r.pus_size == 0,
            r.sent_order() == Seq::<SentItem>::empty(),
    {
        let mut pus_buf: Vec<u8> = Vec::new();
        let mut k: usize = 0;
        while k < PUS_BUF_LEN
            invariant
                k <= PUS_BUF_LEN,
                pus_buf@.len() == k,
            decreases PUS_BUF_LEN - k,
        {
            pus_buf.push(0u8);
            k += 1;
        }
        let stamp_buf = [0u8, 0, 0, 0, 0, 0, 0];
        assert(stamp_buf@ =~= zero_stamp());
        Self {
            tc_receiver,
            tm_apid,
            tm_sender,
            verification_handler,
            stamp_buf,
            pus_buf,
            pus_size: 0,
            order: Ghost(Seq::empty()),
        }
    }

    /// The time stamp for a time code that was asked of the clock: its seven
    /// bytes, or seven zeroes where the clock gave an error, which is then put
    /// into `partial_error`.
    pub fn stamp_of_clock(
        clock: Result<TimeProvider, StdTimestampError>,
        partial_error: &mut Option<PartialPusHandlingError>,
    ) -> (r: [u8; 7])
        ensures
            match clock {
                Ok(p) => r@ == p.bytes() && *final(partial_error) == *old(partial_error),
                Err(e) => r@ == zero_stamp() && *final(partial_error) == Some(
                    PartialPusHandlingError::Time(e),
                ),
            },
    {
        let mut time_stamp: [u8; 7] = [0u8, 0, 0, 0, 0, 0, 0];
        assert(time_stamp@ =~= zero_stamp());
        match clock {
            Ok(time_provider) => {
                let written = time_provider.write_to_bytes(&mut time_stamp);
                assert(time_stamp@ =~= time_provider.bytes());
            },
            Err(e) => {
                *partial_error = Some(PartialPusHandlingError::Time(e));
            },
        }
        time_stamp
    }

    /// The current time as a time stamp of seven bytes, see
    /// [`Self::stamp_of_clock`]. Where the time cannot be had, the time stamp
    /// is zero and `partial_error` says why; else `partial_error` stays.
    pub fn get_current_timestamp(partial_error: &mut Option<PartialPusHandlingError>) -> (r: [u8; 7])
        ensures
            ({
                ||| *final(partial_error) == *old(partial_error) && stamp_from_clock(r@, false)
                ||| (*final(partial_error) matches Some(PartialPusHandlingError::Time(_)))
                    && stamp_from_clock(r@, true)
            }),
    {
        let clock = TimeProvider::from_now_with_u16_days();
        Self::stamp_of_clock(clock, partial_error)
    }

    /// Like [`Self::get_current_timestamp`], for a caller that does not care why
    /// the time stamp is zero.
    pub fn get_current_timestamp_ignore_error() -> (r: [u8; 7])
        ensures
            stamp_from_clock(r@, false) || stamp_from_clock(r@, true),
    {
        let mut dummy = None;
        Self::get_current_timestamp(&mut dummy)
    }

    /// Sets the time stamp of the handler to the current time. Where the time
    /// cannot be had, the time stamp is set to zero and the error is returned.
    /// Nothing else changes.
    pub fn update_stamp(&mut self) -> (r: Result<(), PartialPusHandlingError>)
        ensures
            final(self).tc_receiver == old(self).tc_receiver,
            final(self).tm_sender == old(self).tm_sender,
            final(self).tm_apid == old(self).tm_apid,
            final(self).verification_handler == old(self).verification_handler,
            final(self).pus_buf == old(self).pus_buf,
            final(self).pus_size == old(self).pus_size,
            final(self).order == old(self).order,
            match r {
                Ok(()) => clock_stamp(final(self).stamp_buf@),
                Err(PartialPusHandlingError::Time(_)) => final(self).stamp_buf@ == zero_stamp(),
                Err(_) => false,
            },
    {
        let mut partial_error = None;
        let clock = TimeProvider::from_now_with_u16_days();
        self.stamp_buf = Self::stamp_of_clock(clock, &mut partial_error);
        match partial_error {
            None => Ok(()),
            Some(e) => Err(e),
        }
    }

    /// What became of an attempt to receive a telecommand: `None` for an empty
    /// queue; the error of a closed queue, of a telecommand that could not be
    /// read, or of a token that is missing or in another state than accepted;
    /// else the telecommand with its address and its token.
    pub fn accept_received(received: Result<ReceivedTcWrapper, EcssTmtcError>) -> (r: Result<
        Option<(PusTc, StoreAddr, VerificationToken<StateAccepted>)>,
        PusPacketHandlingError,
    >)
        ensures
            match received {
                Err(EcssTmtcError::Recv(GenericRecvError::Empty)) => r matches Ok(None),
                Err(EcssTmtcError::Recv(GenericRecvError::TxDisconnected)) => r matches Err(
                    PusPacketHandlingError::QueueDisconnected,
                ),
                Err(e) => r matches Err(PusPacketHandlingError::EcssTmtc(f)) && f == e,
                Ok(w) => match w.token {
                    Some(TcStateToken::Accepted(t)) => r matches Ok(Some((tc, addr, token))) && tc == w.tc
                        && addr == w.addr && token == t,
                    _ => r matches Err(PusPacketHandlingError::InvalidVerificationToken),
                },
            },
    {
        match received {
            Ok(ReceivedTcWrapper { tc, addr, token }) => {
                let token = match token {
                    Some(t) => t,
                    None => {
                        return Err(PusPacketHandlingError::InvalidVerificationToken);
                    },
                };
                match token.try_into_accepted() {
                    Ok(accepted) => Ok(Some((tc, addr, accepted))),
                    Err(_) => Err(PusPacketHandlingError::InvalidVerificationToken),
                }
            },
            Err(e) => match e {
                EcssTmtcError::Recv(GenericRecvError::Empty) => Ok(None),
                EcssTmtcError::Recv(GenericRecvError::TxDisconnected) => Err(
                    PusPacketHandlingError::QueueDisconnected,
                ),
                other => Err(PusPacketHandlingError::EcssTmtc(other)),
            },
        }
    }

    /// What an attempt to receive a telecommand leaves behind: the receiver
    /// and the buffer for the telecommand may have changed; nothing was sent.
    pub open spec fn only_received(before: &Self, after: &Self) -> bool {
        &&& after.wf()
        &&& after.same_setup(before)
        &&& after.verification_handler == before.verification_handler
        &&& after.tm_sender == before.tm_sender
        &&& after.stamp_buf == before.stamp_buf
        &&& after.pus_buf@.len() == before.pus_buf@.len()
        &&& after.order == before.order
    }

    /// Takes the next telecommand from the receiver, see [`Self::accept_received`].
    /// Nothing is sent.
    pub fn retrieve_and_accept_next_packet(&mut self) -> (r: Result<
        Option<(PusTc, StoreAddr, VerificationToken<StateAccepted>)>,
        PusPacketHandlingError,
    >)
        requires
            old(self).wf(),
        ensures
            Self::only_received(old(self), final(self)),
            r matches Ok(Some((tc, _, _))) ==> tc.wf(),
            r matches Err(e) ==> receive_failure(e),
    {
        let received = self.tc_receiver.recv_tc(self.pus_buf.as_mut_slice());
        Self::accept_received(received)
    }

    /// Takes the next telecommand, if there is one, and hands its address and
    /// token to `handle_one_packet`, whose result is the result.
    pub fn handle_next_packet<T>(&mut self, handle_one_packet: T) -> (r: Result<
        PusPacketHandlerResult,
        PusPacketHandlingError,
    >) where T: FnOnce(StoreAddr, VerificationToken<StateAccepted>) -> Result<
        PusPacketHandlerResult,
        PusPacketHandlingError,
    >
        requires
            old(self).wf(),
            forall|addr: StoreAddr, token: VerificationToken<StateAccepted>|
                call_requires(handle_one_packet, (addr, token)),
        ensures
            final(self).wf(),
            final(self).same_setup(old(self)),
            final(self).verification_handler == old(self).verification_handler,
            final(self).tm_sender == old(self).tm_sender,
            Self::only_received(old(self), final(self)),
            ({
                ||| nothing_handled(r)
                ||| exists|addr: StoreAddr, token: VerificationToken<StateAccepted>|
                    call_ensures(handle_one_packet, (addr, token), r)
            }),
    {
        match self.retrieve_and_accept_next_packet() {
            Ok(Some((_tc, addr, token))) => handle_one_packet(addr, token),
            Ok(None) => Ok(PusPacketHandlerResult::Empty),
            Err(e) => Err(e),
        }
    }
}

impl<E, R, S, V> PusServiceBase<E, R, S, V> where
    R: EcssTcReceiverCore,
    S: EcssTmSenderCore,
    V: VerificationSender<E>,
 {
    /// What an attempt to send one verification report leaves behind: a
    /// report that fits the buffer of the reporter is offered to the sender,
    /// once; with success the report is at the end of the log of the reports
    /// and of what was sent in all, and was counted; else nothing was sent.
    pub open spec fn reported(before: &Self, after: &Self, tm: TmModel, ok: bool) -> bool {
        &&& after.wf()
        &&& after.same_setup(before)
        &&& after.tm_sender == before.tm_sender
        &&& after.tc_receiver == before.tc_receiver
        &&& after.pus_buf == before.pus_buf
        &&& after.stamp_buf == before.stamp_buf
        &&& if tm.source_data.len() <= before.verification_handler.reporter.buf_len() {
            after.verification_handler.sender.offered()
                == before.verification_handler.sender.offered().push(tm)
        } else {
            !ok && after.verification_handler.sender.offered()
                == before.verification_handler.sender.offered()
        }
        &&& if ok {
            &&& after.vlog() == before.vlog().push(tm)
            &&& after.sent_order() == before.sent_order().push(SentItem::Report(tm))
            &&& after.verification_handler.reporter.msg_count() == crate::verification::next_count(
                before.verification_handler.reporter.msg_count(),
            )
        } else {
            &&& after.vlog() == before.vlog()
            &&& after.sent_order() == before.sent_order()
            &&& after.verification_handler.reporter.msg_count()
                == before.verification_handler.reporter.msg_count()
        }
    }

    /// What an attempt to send telemetry leaves behind: the sender was asked
    /// for it. With success it is at the end of the log of the telemetry and of
    /// what was sent in all; else nothing was sent. The reports and their
    /// count stay.
    pub open spec fn telemetry_sent(before: &Self, after: &Self, tm: TmWrapperModel, ok: bool) -> bool {
        &&& after.wf()
        &&& after.same_setup(before)
        &&& after.verification_handler == before.verification_handler
        &&& after.tc_receiver == before.tc_receiver
        &&& after.pus_buf == before.pus_buf
        &&& after.stamp_buf == before.stamp_buf
        &&& after.tm_sender.offered() == before.tm_sender.offered().push(tm)
        &&& if ok {
            &&& after.tmlog() == before.tmlog().push(tm)
            &&& after.sent_order() == before.sent_order().push(SentItem::Telemetry(tm))
        } else {
            &&& after.tmlog() == before.tmlog()
            &&& after.sent_order() == before.sent_order()
        }
    }

    /// Sends telemetry, see [`Self::telemetry_sent`]. The error is that of the
    /// sender.
    pub fn send_telemetry(&mut self, tm: PusTmWrapper) -> (r: Result<(), EcssTmtcError>)
        requires
            old(self).wf(),
            tm.wf(),
        ensures
            Self::telemetry_sent(old(self), final(self), tm@, r.is_ok()),
    {
        let ghost item = tm@;
        let r = self.tm_sender.send_tm(tm);
        proof {
            if r.is_ok() {
                self.order@ = self.order@.push(SentItem::Telemetry(item));
            }
        }
        r
    }

    /// The report of a failed start with a result code as failure code.
    pub open spec fn start_failure_tm(
        &self,
        token: VerificationToken<StateAccepted>,
        time_stamp: Seq<u8>,
        code: u16,
        failure_data: Option<Seq<u8>>,
    ) -> TmModel {
        let rep = self.verification_handler.reporter;
        crate::verification::verification_tm(
            rep.apid,
            rep.dest_id,
            rep.msg_count(),
            4,
            time_stamp,
            crate::verification::failure_source_data(
                token.req_id_spec()@,
                None,
                crate::spacepackets::be_bytes_u16(code),
                failure_data,
            ),
        )
    }

    /// Reports the start of the execution, TM[1, 3], see [`Self::reported`].
    pub fn report_start(&mut self, token: VerificationToken<StateAccepted>, time_stamp: &[u8]) -> (r: Option<
        VerificationToken<StateStarted>,
    >)
        requires
            old(self).wf(),
            old(self).takes_stamp(time_stamp@),
        ensures
            Self::reported(
                old(self),
                final(self),
                old(self).verification_handler.reporter.success_tm(
                    3,
                    token.req_id_spec(),
                    time_stamp@,
                    None,
                ),
                r.is_some(),
            ),
            r matches Some(t) ==> t.req_id_spec() == token.req_id_spec(),
    {
        let ghost tm = self.verification_handler.reporter.success_tm(
            3,
            token.req_id_spec(),
            time_stamp@,
            None,
        );
        match self.verification_handler.start_success(token, time_stamp) {
            Ok(t) => {
                proof {
                    self.order@ = self.order@.push(SentItem::Report(tm));
                }
                Some(t)
            },
            Err(_) => None,
        }
    }

    /// Reports the completion of the execution, TM[1, 7], see [`Self::reported`].
    pub fn report_completion(&mut self, token: VerificationToken<StateStarted>, time_stamp: &[u8]) -> (r:
        bool)
        requires
            old(self).wf(),
            old(self).takes_stamp(time_stamp@),
        ensures
            Self::reported(
                old(self),
                final(self),
                old(self).verification_handler.reporter.success_tm(
                    7,
                    token.req_id_spec(),
                    time_stamp@,
                    None,
                ),
                r,
            ),
    {
        let ghost tm = self.verification_handler.reporter.success_tm(
            7,
            token.req_id_spec(),
            time_stamp@,
            None,
        );
        let ok = self.verification_handler.completion_success(token, time_stamp).is_ok();
        proof {
            if ok {
                self.order@ = self.order@.push(SentItem::Report(tm));
            }
        }
        ok
    }

    /// Reports that the execution could not start, TM[1, 4], with the result
    /// code `code` as failure code, see [`Self::reported`].
    pub fn report_start_failure(
        &mut self,
        token: VerificationToken<StateAccepted>,
        time_stamp: &[u8],
        code: u16,
        failure_data: Option<&[u8]>,
    ) -> (r: bool)
        requires
            old(self).wf(),
            old(self).takes_stamp(time_stamp@),
        ensures
            Self::reported(
                old(self),
                final(self),
                old(self).start_failure_tm(
                    token,
                    time_stamp@,
                    code,
                    crate::pus_event::opt_view(failure_data),
                ),
                r,
            ),
    {
        let ghost tm = self.start_failure_tm(
            token,
            time_stamp@,
            code,
            crate::pus_event::opt_view(failure_data),
        );
        let code = ResultU16::from_raw(code);
        let ok = self.verification_handler.start_failure(
            token,
            FailParams::new(time_stamp, &code, failure_data),
        ).is_ok();
        proof {
            if ok {
                self.order@ = self.order@.push(SentItem::Report(tm));
            }
        }
        ok
    }

    /// Reports that the execution could not be completed, TM[1, 8], with the
    /// result code `code` as failure code and without failure data, see
    /// [`Self::reported`].
    pub fn report_completion_failure(
        &mut self,
        token: VerificationToken<StateStarted>,
        time_stamp: &[u8],
        code: u16,
    ) -> (r: bool)
        requires
            old(self).wf(),
            old(self).takes_stamp(time_stamp@),
        ensures
            Self::reported(
                old(self),
                final(self),
                crate::verification::verification_tm(
                    old(self).verification_handler.reporter.apid,
                    old(self).verification_handler.reporter.dest_id,
                    old(self).verification_handler.reporter.msg_count(),
                    8,
                    time_stamp@,
                    crate::verification::failure_source_data(
                        token.req_id_spec()@,
                        None,
                        crate::spacepackets::be_bytes_u16(code),
                        None,
                    ),
                ),
                r,
            ),
    {
        let ghost tm = crate::verification::verification_tm(
            self.verification_handler.reporter.apid,
            self.verification_handler.reporter.dest_id,
            self.verification_handler.reporter.msg_count(),
            8,
            time_stamp@,
            crate::verification::failure_source_data(
                token.req_id_spec()@,
                None,
                crate::spacepackets::be_bytes_u16(code),
                None,
            ),
        );
        let code = ResultU16::from_raw(code);
        let ok = self.verification_handler.completion_failure(
            token,
            FailParams::new(time_stamp, &code, None),
        ).is_ok();
        proof {
            if ok {
                self.order@ = self.order@.push(SentItem::Report(tm));
            }
        }
        ok
    }
}

/// The report of a start and the report of the completion that follows it.
pub open spec fn bracket_reports(
    rep: crate::verification::VerificationReporter,
    token: VerificationToken<StateAccepted>,
    time_stamp: Seq<u8>,
) -> Seq<TmModel> {
    let start = rep.success_tm(3, token.req_id_spec(), time_stamp, None);
    seq![
        start,
        TmModel {
            subservice: 7,
            msg_counter: crate::verification::next_count(rep.msg_count()),
            ..start
        },
    ]
}

/// The reports for which the sender is asked by a handler that reports the
/// start and, after that, the completion: the report of the start where it
/// fits the buffer of the reporter, and the report of the completion where
/// the start was reported.
pub open spec fn bracket_asked(
    rep: crate::verification::VerificationReporter,
    token: VerificationToken<StateAccepted>,
    time_stamp: Seq<u8>,
    started: bool,
) -> Seq<TmModel> {
    let reports = bracket_reports(rep, token, time_stamp);
    (if reports[0].source_data.len() <= rep.buf_len() {
        seq![reports[0]]
    } else {
        Seq::<TmModel>::empty()
    }) + (if started {
        seq![reports[1]]
    } else {
        Seq::<TmModel>::empty()
    })
}

impl<E, R, S, V> PusServiceBase<E, R, S, V> where
    R: EcssTcReceiverCore,
    S: EcssTmSenderCore,
    V: VerificationSender<E>,
 {
    /// The number of verification reports sent since `before`.
    pub open spec fn reports_since(&self, before: &Self) -> int {
        self.vlog().len() - before.vlog().len()
    }

    /// What a handler leaves behind that reports the start, does its work and
    /// reports the completion: the first `reports_since` of these two reports
    /// are at the end of the log, and nothing else was sent.
    pub open spec fn bracketed(
        before: &Self,
        after: &Self,
        token: VerificationToken<StateAccepted>,
        time_stamp: Seq<u8>,
    ) -> bool {
        let n = after.reports_since(before);
        &&& after.wf()
        &&& after.same_setup(before)
        &&& after.tm_sender == before.tm_sender
        &&& after.tc_receiver == before.tc_receiver
        &&& 0 <= n <= 2
        &&& after.vlog() == before.vlog() + bracket_reports(
            before.verification_handler.reporter,
            token,
            time_stamp,
        ).subrange(0, n)
        &&& after.verification_handler.sender.offered()
            == before.verification_handler.sender.offered() + bracket_asked(
            before.verification_handler.reporter,
            token,
            time_stamp,
            n >= 1,
        )
    }

    /// A start that was reported and a completion that was tried after it make a bracket.
    pub proof fn lemma_bracket(
        before: &Self,
        mid: &Self,
        after: &Self,
        token: VerificationToken<StateAccepted>,
        started: VerificationToken<StateStarted>,
        time_stamp: Seq<u8>,
        completed: bool,
    )
        requires
            started.req_id_spec() == token.req_id_spec(),
            Self::reported(
                before,
                mid,
                before.verification_handler.reporter.success_tm(3, token.req_id_spec(), time_stamp, None),
                true,
            ),
            Self::reported(
                mid,
                after,
                mid.verification_handler.reporter.success_tm(7, started.req_id_spec(), time_stamp, None),
                completed,
            ),
        ensures
            Self::bracketed(before, after, token, time_stamp),
            after.reports_since(before) == (if completed {
                2int
            } else {
                1int
            }),
    {
        let reports = bracket_reports(before.verification_handler.reporter, token, time_stamp);
        if completed {
            assert(after.vlog() =~= before.vlog() + reports.subrange(0, 2));
        } else {
            assert(after.vlog() =~= before.vlog() + reports.subrange(0, 1));
        }
        assert(after.verification_handler.sender.offered()
            =~= before.verification_handler.sender.offered() + bracket_asked(
            before.verification_handler.reporter,
            token,
            time_stamp,
            true,
        ));
    }

    /// A start that could not be reported makes a bracket without reports.
    pub proof fn lemma_no_bracket(
        before: &Self,
        after: &Self,
        token: VerificationToken<StateAccepted>,
        time_stamp: Seq<u8>,
    )
        requires
            Self::reported(
                before,
                after,
                before.verification_handler.reporter.success_tm(3, token.req_id_spec(), time_stamp, None),
                false,
            ),
        ensures
            Self::bracketed(before, after, token, time_stamp),
            after.reports_since(before) == 0,
    {
        let reports = bracket_reports(before.verification_handler.reporter, token, time_stamp);
        assert(after.vlog() =~= before.vlog() + reports.subrange(0, 0));
        assert(after.verification_handler.sender.offered()
            =~= before.verification_handler.sender.offered() + bracket_asked(
            before.verification_handler.reporter,
            token,
            time_stamp,
            false,
        ));
    }
}

/// A handler of one PUS service.
pub trait PusServiceHandler<E, R, S, V>: Sized where
    R: EcssTcReceiverCore,
    S: EcssTmSenderCore,
    V: VerificationSender<E>,
 {
    /// The invariant of the handler.
    open spec fn usable(&self) -> bool {
        true
    }

    /// The base of the handler.
    open spec fn base(&self) -> PusServiceBase<E, R, S, V> {
        arbitrary()
    }

    /// The handler is as `before`, but for its base.
    open spec fn same_but_base(&self, before: &Self) -> bool {
        true
    }

    /// What [`Self::retrieve_next`] leaves behind and returns.
    open spec fn retrieved(
        before: &Self,
        after: &Self,
        got: Result<Option<(PusTc, StoreAddr, VerificationToken<StateAccepted>)>, PusPacketHandlingError>,
    ) -> bool {
        true
    }

    /// What [`Self::handle_one_tc`] leaves behind and returns.
    open spec fn one_handled(
        before: &Self,
        after: &Self,
        tc: PusTc,
        addr: StoreAddr,
        token: VerificationToken<StateAccepted>,
        r: Result<PusPacketHandlerResult, PusPacketHandlingError>,
    ) -> bool {
        true
    }

    /// The base of the handler, to work on: the handler then has the base as
    /// it was left, and is else as before.
    fn psb_mut(&mut self) -> (r: &mut PusServiceBase<E, R, S, V>)
        ensures
            *r == old(self).base(),
            final(self).base() == *final(r),
            final(self).same_but_base(old(self)),
    ;

    /// The base of the handler.
    fn psb(&self) -> (r: &PusServiceBase<E, R, S, V>)
        ensures
            *r == self.base(),
    ;

    /// Takes the next telecommand from the receiver of the handler, see
    /// [`PusServiceBase::accept_received`].
    fn retrieve_next(&mut self) -> (r: Result<
        Option<(PusTc, StoreAddr, VerificationToken<StateAccepted>)>,
        PusPacketHandlingError,
    >)
        requires
            old(self).usable(),
        ensures
            final(self).usable(),
            r matches Ok(Some((tc, _, _))) ==> tc.wf(),
            r matches Err(e) ==> receive_failure(e),
            Self::retrieved(old(self), final(self), r),
    ;

    /// Handles one telecommand that was accepted.
    fn handle_one_tc(&mut self, tc: PusTc, addr: StoreAddr, token: VerificationToken<StateAccepted>) -> (r:
        Result<PusPacketHandlerResult, PusPacketHandlingError>)
        requires
            old(self).usable(),
            tc.wf(),
        ensures
            final(self).usable(),
            Self::one_handled(old(self), final(self), tc, addr, token, r),
    ;

    /// Takes the next telecommand, if there is one, and handles it. Without a
    /// telecommand the result is [`PusPacketHandlerResult::Empty`]; a
    /// telecommand that could not be received, or whose token is missing or not
    /// in the state accepted, is an error. In both cases the handler is left as
    /// the attempt to receive left it. A telecommand that was received is
    /// handled as [`Self::handle_one_tc`] says, from where the attempt to
    /// receive left the handler.
    fn handle_next_packet(&mut self) -> (r: Result<PusPacketHandlerResult, PusPacketHandlingError>)
        requires
            old(self).usable(),
        ensures
            final(self).usable(),
            exists|
                mid: Self,
                got: Result<Option<(PusTc, StoreAddr, VerificationToken<StateAccepted>)>, PusPacketHandlingError>,
            | #[trigger]
                Self::retrieved(old(self), &mid, got) && match got {
                    Ok(Some((tc, addr, token))) => tc.wf() && Self::one_handled(
                        &mid,
                        final(self),
                        tc,
                        addr,
                        token,
                        r,
                    ),
                    Ok(None) => r matches Ok(PusPacketHandlerResult::Empty) && *final(self) == mid,
                    Err(e) => receive_failure(e) && r == Err::<
                        PusPacketHandlerResult,
                        PusPacketHandlingError,
                    >(e) && *final(self) == mid,
                },
    {
        let got = self.retrieve_next();
        let ghost mid = *self;
        let ghost seen = got;
        match got {
            Ok(Some((tc, addr, token))) => {
                let r = self.handle_one_tc(tc, addr, token);
                proof {
                    assert(Self::retrieved(old(self), &mid, seen));
                    assert(Self::one_handled(&mid, self, tc, addr, token, r));
                }
                r
            },
            Ok(None) => {
                proof {
                    assert(Self::retrieved(old(self), &mid, seen));
                }
                Ok(PusPacketHandlerResult::Empty)
            },
            Err(e) => {
                proof {
                    assert(Self::retrieved(old(self), &mid, seen));
                }
                Err(e)
            },
        }
    }
}

} // verus!
