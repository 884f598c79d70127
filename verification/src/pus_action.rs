//! PUS service 8: the handler for action requests.
//!
//! TC[8, 128] carries the identifier of a target, the number of an action and
//! the parameters of the action. The action is sent on to the target.
use crate::index_map::IdTable;
use crate::pool::StoreAddr;
use crate::pus::{EcssTcReceiverCore, EcssTmSenderCore};
use crate::pus_service::{
    PusPacketHandlerResult, PusPacketHandlingError, PusServiceBase, PusServiceHandler,
};
use crate::requests::{ActionRequest, Request, RequestSender, RequestWithToken, TargetId};
use crate::res_code::{INVALID_PUS_SUBSERVICE, NOT_ENOUGH_APP_DATA, UNKNOWN_TARGET_ID};
use crate::spacepackets::{u32_from_be, u32_to_be};
use crate::tc::PusTc;
use crate::verification::{
    StateAccepted, VerificationReporterWithSender, VerificationSender, VerificationToken,
};
use vstd::prelude::*;

verus! {

/// The subservice of service 8 that asks for an action by its number.
pub const SUBSERVICE_ACTION_BY_ID: u8 = 128;

/// Wrapper of `format!` for the message about a target that is not known.
#[verifier::external_body]
fn unknown_target_message(target_id: u32) -> (r: String) {
    format!("Unknown target ID {target_id}")
}

/// The handler of service 8.
pub struct PusService8ActionHandler<E, R, S, V, Q> where
    R: EcssTcReceiverCore,
    S: EcssTmSenderCore,
    V: VerificationSender<E>,
    Q: RequestSender,
 {
    pub psb: PusServiceBase<E, R, S, V>,
    pub request_handlers: IdTable<Q>,
}

/// The bytes of an optional field, none for a field that is not there.
pub open spec fn data_of(tc: crate::tc::TcModel) -> Seq<u8> {
    match tc.app_data {
        Some(d) => d,
        None => Seq::<u8>::empty(),
    }
}

/// `request` is the request for the action that the application data `data` names.
pub open spec fn is_action_request(
    request: RequestWithToken,
    data: Seq<u8>,
    token: VerificationToken<StateAccepted>,
) -> bool {
    &&& request.token == token
    &&& request.targeted_request.target_id == crate::spacepackets::u32_of_be(data.subrange(0, 4))
    &&& request.targeted_request.request matches Request::Action(
        ActionRequest::CmdWithU32Id(action_id, params),
    ) && action_id == crate::spacepackets::u32_of_be(data.subrange(4, 8)) && params@ == data.subrange(
        8,
        data.len() as int,
    )
}

impl<E, R, S, V, Q> PusService8ActionHandler<E, R, S, V, Q> where
    R: EcssTcReceiverCore,
    S: EcssTmSenderCore,
    V: VerificationSender<E>,
    Q: RequestSender,
 {
    /// The handler can work: its parts are in order.
    pub open spec fn wf(&self) -> bool {
        self.psb.wf() && self.request_handlers.wf()
    }

    pub fn new(
        tc_receiver: R,
        tm_sender: S,
        tm_apid: u16,
        verification_handler: VerificationReporterWithSender<E, V>,
        request_handlers: IdTable<Q>,
    ) -> (r: Self)
        ensures
            r.psb.tc_receiver == tc_receiver,
            r.psb.tm_sender == tm_sender,
            r.psb.tm_apid == tm_apid,
            r.psb.verification_handler == verification_handler,
            r.psb.pus_buf@.len() == crate::pus_service::PUS_BUF_LEN,
            r.request_handlers == request_handlers,
    {
        Self {
            psb: PusServiceBase::new(tc_receiver, tm_sender, tm_apid, verification_handler),
            request_handlers,
        }
    }

    /// What the handling of a telecommand of service 8 leaves behind.
    ///
    /// A subservice other than 128 is refused: a failure of the start is
    /// reported with the subservice as failure data. So is application data of
    /// less than eight bytes, without failure data, and a target that is not
    /// known, with the target as failure data. Else the sender of the target
    /// is asked to send the request, and the result is `RequestHandled`
    /// exactly if it was sent. Nothing else is sent.
    pub open spec fn action_handled(
        before: &Self,
        after: &Self,
        tc: crate::tc::TcModel,
        token: VerificationToken<StateAccepted>,
        time_stamp: Seq<u8>,
        r: Result<PusPacketHandlerResult, PusPacketHandlingError>,
    ) -> bool {
        let sub = tc.data_field_header.subservice;
        let data = data_of(tc);
        let target = crate::spacepackets::u32_of_be(data.subrange(0, 4));
        let senders = before.request_handlers.entries();
        let refused = |code: u16, failure_data: Option<Seq<u8>>|
            {
                &&& after.request_handlers == before.request_handlers
                &&& exists|reported: bool| #[trigger]
                    PusServiceBase::reported(
                        &before.psb,
                        &after.psb,
                        before.psb.start_failure_tm(token, time_stamp, code, failure_data),
                        reported,
                    )
            };
        &&& after.wf()
        &&& if sub != SUBSERVICE_ACTION_BY_ID {
            &&& refused(INVALID_PUS_SUBSERVICE, Some(seq![sub]))
            &&& r matches Err(PusPacketHandlingError::InvalidSubservice(s)) && s == sub
        } else if data.len() < 8 {
            &&& refused(NOT_ENOUGH_APP_DATA, None)
            &&& r matches Err(PusPacketHandlingError::NotEnoughAppData(_))
        } else if !senders.dom().contains(target) {
            &&& refused(UNKNOWN_TARGET_ID, Some(crate::spacepackets::be_bytes_u32(target)))
            &&& r matches Err(PusPacketHandlingError::Other(_))
        } else {
            let log_before = senders[target].sent();
            let log_after = after.request_handlers.entries()[target].sent();
            let asked_before = senders[target].offered();
            let asked_after = after.request_handlers.entries()[target].offered();
            &&& after.psb == before.psb
            &&& after.request_handlers.entries().dom() == senders.dom()
            &&& forall|other: TargetId|
                other != target && senders.dom().contains(other)
                    ==> #[trigger] after.request_handlers.entries()[other] == senders[other]
            &&& asked_after.len() == asked_before.len() + 1
            &&& asked_after.drop_last() == asked_before
            &&& is_action_request(asked_after.last(), data, token)
            &&& match r {
                Ok(PusPacketHandlerResult::RequestHandled) => {
                    &&& log_after.len() == log_before.len() + 1
                    &&& log_after.drop_last() == log_before
                    &&& is_action_request(log_after.last(), data, token)
                },
                Err(PusPacketHandlingError::Other(_)) => log_after == log_before,
                _ => false,
            }
        }
    }

    /// Handles a telecommand of service 8 with the given time stamp, see
    /// [`Self::action_handled`].
    pub fn handle_one_tc_with_stamp(
        &mut self,
        tc: &PusTc,
        token: VerificationToken<StateAccepted>,
        time_stamp: &[u8],
    ) -> (r: Result<PusPacketHandlerResult, PusPacketHandlingError>)
        requires
            old(self).wf(),
            tc.wf(),
            old(self).psb.takes_stamp(time_stamp@),
        ensures
            Self::action_handled(old(self), final(self), tc@, token, time_stamp@, r),
    {
        let subservice = tc.subservice();
        if subservice != SUBSERVICE_ACTION_BY_ID {
            let fail_data = [subservice];
            assert(fail_data@ =~= seq![subservice]);
            let reported = self.psb.report_start_failure(
                token,
                time_stamp,
                INVALID_PUS_SUBSERVICE,
                Some(&fail_data),
            );
            return Err(PusPacketHandlingError::InvalidSubservice(subservice));
        }
        let empty: [u8; 0] = [];
        assert(empty@ =~= Seq::<u8>::empty());
        let user_data: &[u8] = match tc.user_data() {
            Some(d) => d,
            None => &empty,
        };
        if user_data.len() < 8 {
            let reported = self.psb.report_start_failure(token, time_stamp, NOT_ENOUGH_APP_DATA, None);
            return Err(PusPacketHandlingError::NotEnoughAppData("Expected at least 8 bytes".to_owned()));
        }
        let target_id = u32_from_be(user_data, 0);
        let action_id = u32_from_be(user_data, 4);
        if !self.request_handlers.contains(target_id) {
            let fail_data = u32_to_be(target_id);
            let reported = self.psb.report_start_failure(
                token,
                time_stamp,
                UNKNOWN_TARGET_ID,
                Some(&fail_data),
            );
            return Err(PusPacketHandlingError::Other(unknown_target_message(target_id)));
        }
        let params = vstd::slice::slice_to_vec(
            vstd::slice::slice_subrange(user_data, 8, user_data.len()),
        );
        let request = RequestWithToken::new(
            target_id,
            Request::Action(ActionRequest::CmdWithU32Id(action_id, params)),
            token,
        );
        let ghost before_entries = self.request_handlers.entries();
        let sent = match self.request_handlers.get_mut(target_id) {
            Some(sender) => sender.send_request(request).is_ok(),
            None => false,
        };
        proof {
            assert(self.request_handlers.entries().dom() =~= before_entries.dom());
            let asked_before = before_entries[target_id].offered();
            let asked_after = self.request_handlers.entries()[target_id].offered();
            assert(asked_after.drop_last() =~= asked_before);
        }
        if !sent {
            return Err(PusPacketHandlingError::Other("Forwarding action request failed".to_owned()));
        }
        proof {
            let log_before = before_entries[target_id].sent();
            let log_after = self.request_handlers.entries()[target_id].sent();
            assert(log_after.drop_last() =~= log_before);
        }
        Ok(PusPacketHandlerResult::RequestHandled)
    }

    /// What the handling of a telecommand with the time of the clock as time
    /// stamp leaves behind and returns: what [`Self::action_handled`] says for
    /// a time stamp as the clock gives it, or for a time stamp of zeroes where
    /// the time could not be had; the result is as
    /// [`crate::pus_service::result_with_time`] says.
    pub open spec fn handled_now(
        before: &Self,
        after: &Self,
        tc: &PusTc,
        token: VerificationToken<StateAccepted>,
        r: Result<PusPacketHandlerResult, PusPacketHandlingError>,
    ) -> bool {
        exists|
            time_stamp: Seq<u8>,
            time_error: bool,
            inner: Result<PusPacketHandlerResult, PusPacketHandlingError>,
        |
            crate::pus_service::stamp_from_clock(time_stamp, time_error) && #[trigger] Self::action_handled(
                before,
                after,
                tc@,
                token,
                time_stamp,
                inner,
            ) && #[trigger] crate::pus_service::result_with_time(inner, time_error, r)
    }

    /// The handler is as `before`, but for what an attempt to receive a
    /// telecommand changes, see [`PusServiceBase::only_received`].
    pub open spec fn only_received(before: &Self, after: &Self) -> bool {
        &&& PusServiceBase::only_received(&before.psb, &after.psb)
        &&& after.request_handlers == before.request_handlers
    }

    /// What the handling of the next telecommand leaves behind and returns.
    /// Where no telecommand was received, nothing was sent and the result says
    /// that the queue is empty or why nothing could be received. Else the
    /// telecommand that was received was handled, see [`Self::handled_now`].
    pub open spec fn next_handled(
        before: &Self,
        after: &Self,
        r: Result<PusPacketHandlerResult, PusPacketHandlingError>,
    ) -> bool {
        ||| crate::pus_service::nothing_handled(r) && Self::only_received(before, after)
        ||| exists|mid: Self, tc: PusTc, token: VerificationToken<StateAccepted>|
            Self::only_received(before, &mid) && tc.wf() && #[trigger] Self::handled_now(
                &mid,
                after,
                &tc,
                token,
                r,
            )
    }

    /// Handles a telecommand of service 8 with the current time as time stamp,
    /// see [`Self::handled_now`].
    pub fn handle_tc(&mut self, tc: &PusTc, token: VerificationToken<StateAccepted>) -> (r: Result<
        PusPacketHandlerResult,
        PusPacketHandlingError,
    >)
        requires
            old(self).wf(),
            tc.wf(),
        ensures
            final(self).wf(),
            Self::handled_now(old(self), final(self), tc, token, r),
    {
        let mut partial_error = None;
        let time_stamp = PusServiceBase::<E, R, S, V>::get_current_timestamp(&mut partial_error);
        let inner = self.handle_one_tc_with_stamp(tc, token, &time_stamp);
        let ghost seen = inner;
        let ghost time_error = partial_error.is_some();
        let r = match (inner, partial_error) {
            (Ok(PusPacketHandlerResult::RequestHandled), Some(e)) => Ok(
                PusPacketHandlerResult::RequestHandledPartialSuccess(e),
            ),
            (r, _) => r,
        };
        proof {
            assert(Self::action_handled(old(self), self, tc@, token, time_stamp@, seen));
            assert(crate::pus_service::result_with_time(seen, time_error, r));
        }
        r
    }
}

impl<E, R, S, V, Q> PusServiceHandler<E, R, S, V> for PusService8ActionHandler<E, R, S, V, Q> where
    R: EcssTcReceiverCore,
    S: EcssTmSenderCore,
    V: VerificationSender<E>,
    Q: RequestSender,
 {
    open spec fn usable(&self) -> bool {
        self.wf()
    }

    open spec fn base(&self) -> PusServiceBase<E, R, S, V> {
        self.psb
    }

    open spec fn same_but_base(&self, before: &Self) -> bool {
        self.request_handlers == before.request_handlers
    }

    open spec fn retrieved(
        before: &Self,
        after: &Self,
        got: Result<Option<(PusTc, StoreAddr, VerificationToken<StateAccepted>)>, PusPacketHandlingError>,
    ) -> bool {
        Self::only_received(before, after)
    }

    open spec fn one_handled(
        before: &Self,
        after: &Self,
        tc: PusTc,
        addr: StoreAddr,
        token: VerificationToken<StateAccepted>,
        r: Result<PusPacketHandlerResult, PusPacketHandlingError>,
    ) -> bool {
        Self::handled_now(before, after, &tc, token, r)
    }

    fn psb_mut(&mut self) -> (r: &mut PusServiceBase<E, R, S, V>) {
        &mut self.psb
    }

    fn psb(&self) -> (r: &PusServiceBase<E, R, S, V>) {
        &self.psb
    }

    fn retrieve_next(&mut self) -> (r: Result<
        Option<(PusTc, StoreAddr, VerificationToken<StateAccepted>)>,
        PusPacketHandlingError,
    >) {
        self.psb.retrieve_and_accept_next_packet()
    }

    fn handle_one_tc(&mut self, tc: PusTc, addr: StoreAddr, token: VerificationToken<StateAccepted>) -> (r:
        Result<PusPacketHandlerResult, PusPacketHandlingError>) {
        self.handle_tc(&tc, token)
    }
}

/// What became of a call of a handler, for the loop that calls it: whether
/// the queue of the handler was empty.
pub open spec fn queue_empty(r: Result<PusPacketHandlerResult, PusPacketHandlingError>) -> bool {
    r matches Ok(PusPacketHandlerResult::Empty)
}

/// The service 8 handler as the loop of the service handlers calls it.
pub struct Pus8Wrapper<E, R, S, V, Q> where
    R: EcssTcReceiverCore,
    S: EcssTmSenderCore,
    V: VerificationSender<E>,
    Q: RequestSender,
 {
    pub pus_8_handler: PusService8ActionHandler<E, R, S, V, Q>,
}

impl<E, R, S, V, Q> Pus8Wrapper<E, R, S, V, Q> where
    R: EcssTcReceiverCore,
    S: EcssTmSenderCore,
    V: VerificationSender<E>,
    Q: RequestSender,
 {
    /// Whether a result says that the queue was empty: then the loop can rest.
    pub fn is_finished(result: &Result<PusPacketHandlerResult, PusPacketHandlingError>) -> (r: bool)
        ensures
            r == queue_empty(*result),
    {
        match result {
            Ok(PusPacketHandlerResult::Empty) => true,
            _ => false,
        }
    }

    /// Handles the next telecommand, see
    /// [`PusService8ActionHandler::next_handled`]. Returns `true` where the
    /// result of the handler says that its queue was empty.
    pub fn handle_next_packet(&mut self) -> (r: bool)
        requires
            old(self).pus_8_handler.wf(),
        ensures
            final(self).pus_8_handler.wf(),
            exists|result: Result<PusPacketHandlerResult, PusPacketHandlingError>| #[trigger]
                PusService8ActionHandler::next_handled(
                    &old(self).pus_8_handler,
                    &final(self).pus_8_handler,
                    result,
                ) && r == queue_empty(result),
    {
        let result = self.pus_8_handler.handle_next_packet();
        proof {
            assert(PusService8ActionHandler::next_handled(
                &old(self).pus_8_handler,
                &self.pus_8_handler,
                result,
            ));
        }
        Self::is_finished(&result)
    }
}

} // verus!
