//! PUS service 5, the telecommand side: TC[5, 5] enables the reporting of an
//! event and TC[5, 6] disables it. The event is named by four bytes of
//! application data. The request goes to whoever keeps track of the events.
use crate::events::EventU32;
use crate::pus::{EcssTcReceiverCore, EcssTmSenderCore};
use crate::pus_service::{PusPacketHandlerResult, PusPacketHandlingError, PusServiceBase};
use crate::requests::{EventRequest, EventRequestSender, EventRequestWithToken};
use crate::res_code::{INVALID_PUS_SUBSERVICE, NOT_ENOUGH_APP_DATA};
use crate::spacepackets::u32_from_be;
use crate::tc::PusTc;
use crate::verification::{
    StateAccepted, VerificationReporterWithSender, VerificationSender, VerificationToken,
};
use vstd::prelude::*;

verus! {

/// The subservice that enables the reporting of an event.
pub const TC_ENABLE_EVENT_GENERATION: u8 = 5;

/// The subservice that disables the reporting of an event.
pub const TC_DISABLE_EVENT_GENERATION: u8 = 6;

/// The handler of the telecommands of service 5.
pub struct PusService5EventHandler<E, R, S, V, Q> where
    R: EcssTcReceiverCore,
    S: EcssTmSenderCore,
    V: VerificationSender<E>,
    Q: EventRequestSender,
 {
    pub psb: PusServiceBase<E, R, S, V>,
    pub event_request_tx: Q,
}

/// The request that a telecommand of service 5 stands for.
pub open spec fn event_request(subservice: u8, data: Seq<u8>) -> EventRequest {
    let event = EventU32::of_model(
        crate::events::EventU32Model::of_raw(crate::spacepackets::u32_of_be(data.subrange(0, 4))),
    );
    if subservice == TC_ENABLE_EVENT_GENERATION {
        EventRequest::Enable(event)
    } else {
        EventRequest::Disable(event)
    }
}

impl<E, R, S, V, Q> PusService5EventHandler<E, R, S, V, Q> where
    R: EcssTcReceiverCore,
    S: EcssTmSenderCore,
    V: VerificationSender<E>,
    Q: EventRequestSender,
 {
    pub fn new(
        tc_receiver: R,
        tm_sender: S,
        tm_apid: u16,
        verification_handler: VerificationReporterWithSender<E, V>,
        event_request_tx: Q,
    ) -> (r: Self)
        ensures
            r.psb.tc_receiver == tc_receiver,
            r.psb.tm_sender == tm_sender,
            r.psb.tm_apid == tm_apid,
            r.psb.verification_handler == verification_handler,
            r.psb.pus_buf@.len() == crate::pus_service::PUS_BUF_LEN,
            r.event_request_tx == event_request_tx,
    {
        Self {
            psb: PusServiceBase::new(tc_receiver, tm_sender, tm_apid, verification_handler),
            event_request_tx,
        }
    }

    /// What the handling of a telecommand of service 5 leaves behind.
    ///
    /// Application data of less than four bytes is refused with a report of a
    /// failed start, and so is a subservice other than 5 and 6. Else the start
    /// is reported and, where that worked, the sender of requests is asked
    /// to send the request with the token of the started telecommand; the
    /// completion is reported by whoever
    /// carries the request out. The result is `RequestHandled` exactly if the
    /// request was sent.
    pub open spec fn event_tc_handled(
        before: &Self,
        after: &Self,
        tc: crate::tc::TcModel,
        token: VerificationToken<StateAccepted>,
        time_stamp: Seq<u8>,
        r: Result<PusPacketHandlerResult, PusPacketHandlingError>,
    ) -> bool {
        let sub = tc.data_field_header.subservice;
        let data = crate::pus_action::data_of(tc);
        let refused = |code: u16|
            {
                &&& after.event_request_tx == before.event_request_tx
                &&& exists|reported: bool| #[trigger]
                    PusServiceBase::reported(
                        &before.psb,
                        &after.psb,
                        before.psb.start_failure_tm(token, time_stamp, code, None),
                        reported,
                    )
            };
        &&& after.psb.wf()
        &&& if data.len() < 4 {
            &&& refused(NOT_ENOUGH_APP_DATA)
            &&& r matches Err(PusPacketHandlingError::NotEnoughAppData(_))
        } else if sub != TC_ENABLE_EVENT_GENERATION && sub != TC_DISABLE_EVENT_GENERATION {
            &&& refused(INVALID_PUS_SUBSERVICE)
            &&& r matches Err(PusPacketHandlingError::InvalidSubservice(s)) && s == sub
        } else {
            let started = after.psb.reports_since(&before.psb) == 1;
            let log_before = before.event_request_tx.sent();
            let log_after = after.event_request_tx.sent();
            let asked_before = before.event_request_tx.offered();
            let asked_after = after.event_request_tx.offered();
            &&& if started {
                &&& asked_after.len() == asked_before.len() + 1
                &&& asked_after.drop_last() == asked_before
                &&& asked_after.last().request == event_request(sub, data)
                &&& asked_after.last().token.req_id_spec() == token.req_id_spec()
            } else {
                asked_after == asked_before
            }
            &&& PusServiceBase::reported(
                &before.psb,
                &after.psb,
                before.psb.verification_handler.reporter.success_tm(
                    3,
                    token.req_id_spec(),
                    time_stamp,
                    None,
                ),
                started,
            )
            &&& match r {
                Ok(PusPacketHandlerResult::RequestHandled) => {
                    &&& started
                    &&& log_after.len() == log_before.len() + 1
                    &&& log_after.drop_last() == log_before
                    &&& log_after.last().request == event_request(sub, data)
                    &&& log_after.last().token.req_id_spec() == token.req_id_spec()
                },
                Err(PusPacketHandlingError::Other(_)) => log_after == log_before,
                _ => false,
            }
        }
    }

    /// Handles a telecommand of service 5 with the given time stamp, see
    /// [`Self::event_tc_handled`].
    pub fn handle_one_tc_with_stamp(
        &mut self,
        tc: &PusTc,
        token: VerificationToken<StateAccepted>,
        time_stamp: &[u8],
    ) -> (r: Result<PusPacketHandlerResult, PusPacketHandlingError>)
        requires
            old(self).psb.wf(),
            tc.wf(),
            old(self).psb.takes_stamp(time_stamp@),
        ensures
            Self::event_tc_handled(old(self), final(self), tc@, token, time_stamp@, r),
    {
        let empty: [u8; 0] = [];
        assert(empty@ =~= Seq::<u8>::empty());
        let app_data: &[u8] = match tc.user_data() {
            Some(d) => d,
            None => &empty,
        };
        if app_data.len() < 4 {
            let reported = self.psb.report_start_failure(token, time_stamp, NOT_ENOUGH_APP_DATA, None);
            return Err(PusPacketHandlingError::NotEnoughAppData("Expected at least 4 bytes".to_owned()));
        }
        let subservice = tc.subservice();
        if subservice != TC_ENABLE_EVENT_GENERATION && subservice != TC_DISABLE_EVENT_GENERATION {
            let reported = self.psb.report_start_failure(token, time_stamp, INVALID_PUS_SUBSERVICE, None);
            return Err(PusPacketHandlingError::InvalidSubservice(subservice));
        }
        let event_id = EventU32::from_raw(u32_from_be(app_data, 0));
        proof {
            event_id.lemma_of_model();
        }
        let start_token = match self.psb.report_start(token, time_stamp) {
            Some(t) => t,
            None => {
                return Err(PusPacketHandlingError::Other("Sending start success TM failed".to_owned()));
            },
        };
        let request = if subservice == TC_ENABLE_EVENT_GENERATION {
            EventRequest::Enable(event_id)
        } else {
            EventRequest::Disable(event_id)
        };
        let ghost log_before = self.event_request_tx.sent();
        let ghost asked_before = self.event_request_tx.offered();
        let sent = self.event_request_tx.send_event_request(
            EventRequestWithToken { request, token: start_token },
        );
        proof {
            assert(self.event_request_tx.offered().drop_last() =~= asked_before);
        }
        match sent {
            Ok(()) => {
                assert(self.event_request_tx.sent().drop_last() =~= log_before);
                Ok(PusPacketHandlerResult::RequestHandled)
            },
            Err(_) => Err(PusPacketHandlingError::Other("Sending event request failed".to_owned())),
        }
    }

    /// The handler is as `before`, but for what an attempt to receive a
    /// telecommand changes, see [`PusServiceBase::only_received`].
    pub open spec fn only_received(before: &Self, after: &Self) -> bool {
        &&& PusServiceBase::only_received(&before.psb, &after.psb)
        &&& after.event_request_tx == before.event_request_tx
    }

    /// What [`Self::handle_next_packet`] leaves behind and returns. Where no
    /// telecommand was received, nothing was sent and the result says that the
    /// queue is empty or why nothing could be received. Else the telecommand
    /// that was received was handled as [`Self::event_tc_handled`] says, for a time stamp
    /// as the clock gives it, or for a time stamp of zeroes where the time
    /// could not be had.
    pub open spec fn next_handled(
        before: &Self,
        after: &Self,
        r: Result<PusPacketHandlerResult, PusPacketHandlingError>,
    ) -> bool {
        ||| crate::pus_service::nothing_handled(r) && Self::only_received(before, after)
        ||| exists|mid: Self, tc: PusTc, token: VerificationToken<StateAccepted>, time_stamp: Seq<u8>|
            Self::only_received(before, &mid) && tc.wf() && (crate::pus_service::stamp_from_clock(
                time_stamp,
                false,
            ) || crate::pus_service::stamp_from_clock(time_stamp, true)) && #[trigger] Self::event_tc_handled(
                &mid,
                after,
                tc@,
                token,
                time_stamp,
                r,
            )
    }

    /// Takes the next telecommand from the receiver, if there is one, and
    /// handles it with the current time as time stamp, see
    /// [`Self::next_handled`].
    pub fn handle_next_packet(&mut self) -> (r: Result<PusPacketHandlerResult, PusPacketHandlingError>)
        requires
            old(self).psb.wf(),
        ensures
            final(self).psb.wf(),
            Self::next_handled(old(self), final(self), r),
    {
        let (tc, _addr, token) = match self.psb.retrieve_and_accept_next_packet() {
            Ok(Some(received)) => received,
            Ok(None) => {
                return Ok(PusPacketHandlerResult::Empty);
            },
            Err(e) => {
                return Err(e);
            },
        };
        let ghost mid = *self;
        let time_stamp = PusServiceBase::<E, R, S, V>::get_current_timestamp_ignore_error();
        let r = self.handle_one_tc_with_stamp(&tc, token, &time_stamp);
        proof {
            assert(Self::event_tc_handled(&mid, self, tc@, token, time_stamp@, r));
        }
        r
    }
}

} // verus!
