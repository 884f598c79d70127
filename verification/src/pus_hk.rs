//! PUS service 3: the handler for housekeeping requests.
//!
//! The application data of a request starts with the identifier of a target
//! and the identifier of one of its sets of housekeeping data. The request is
//! sent on to the target.
use crate::index_map::IdTable;
use crate::pus::{EcssTcReceiverCore, EcssTmSenderCore};
use crate::pus_service::{PusPacketHandlerResult, PusPacketHandlingError, PusServiceBase};
use crate::requests::{
    AddressableId, HkRequest, Request, RequestSender, RequestWithToken, TargetId,
};
use crate::res_code::{
    HK_COLLECTION_INTERVAL_MISSING, HK_TARGET_ID_MISSING, HK_UNIQUE_ID_MISSING,
    HK_UNKNOWN_TARGET_ID, INVALID_PUS_SUBSERVICE, NOT_ENOUGH_APP_DATA,
};
use crate::spacepackets::u32_from_be;
use crate::tc::PusTc;
use crate::verification::{
    StateAccepted, VerificationReporterWithSender, VerificationSender, VerificationToken,
};
use vstd::prelude::*;

verus! {

/// The subservice that enables the generation of housekeeping data.
pub const TC_ENABLE_HK_GENERATION: u8 = 5;

/// The subservice that disables the generation of housekeeping data.
pub const TC_DISABLE_HK_GENERATION: u8 = 6;

/// The subservice that asks for housekeeping data once.
pub const TC_GENERATE_ONE_SHOT_HK: u8 = 27;

/// The subservice that changes the collection interval of housekeeping data.
pub const TC_MODIFY_HK_COLLECTION_INTERVAL: u8 = 31;

/// The handler of service 3.
pub struct PusService3HkHandler<E, R, S, V, Q> where
    R: EcssTcReceiverCore,
    S: EcssTmSenderCore,
    V: VerificationSender<E>,
    Q: RequestSender,
 {
    pub psb: PusServiceBase<E, R, S, V>,
    pub request_handlers: IdTable<Q>,
}

/// What is wrong with a housekeeping request, as the result code that is
/// reported for it, where `known` says whether the target is known; `None`
/// for a request that is in order.
pub open spec fn hk_refusal(tc: crate::tc::TcModel, known: bool) -> Option<u16> {
    let sub = tc.data_field_header.subservice;
    match tc.app_data {
        None => Some(NOT_ENOUGH_APP_DATA),
        Some(data) => if data.len() < 4 {
            Some(HK_TARGET_ID_MISSING)
        } else if data.len() < 8 {
            Some(HK_UNIQUE_ID_MISSING)
        } else if !known {
            Some(HK_UNKNOWN_TARGET_ID)
        } else if sub == TC_ENABLE_HK_GENERATION || sub == TC_DISABLE_HK_GENERATION || sub
            == TC_GENERATE_ONE_SHOT_HK {
            None
        } else if sub == TC_MODIFY_HK_COLLECTION_INTERVAL {
            if data.len() < 12 {
                Some(HK_COLLECTION_INTERVAL_MISSING)
            } else {
                None
            }
        } else {
            Some(INVALID_PUS_SUBSERVICE)
        },
    }
}

/// The request that a telecommand of service 3 stands for, where it is in order.
pub open spec fn hk_request(sub: u8, data: Seq<u8>) -> HkRequest {
    let unique_id = crate::spacepackets::u32_of_be(data.subrange(4, 8));
    if sub == TC_ENABLE_HK_GENERATION {
        HkRequest::Enable(unique_id)
    } else if sub == TC_DISABLE_HK_GENERATION {
        HkRequest::Disable(unique_id)
    } else if sub == TC_GENERATE_ONE_SHOT_HK {
        HkRequest::OneShot(unique_id)
    } else {
        HkRequest::ModifyCollectionInterval(
            unique_id,
            crate::spacepackets::u32_of_be(data.subrange(8, 12)),
        )
    }
}

impl<E, R, S, V, Q> PusService3HkHandler<E, R, S, V, Q> where
    R: EcssTcReceiverCore,
    S: EcssTmSenderCore,
    V: VerificationSender<E>,
    Q: RequestSender,
 {
    /// The handler can work: its parts are in order.
    pub open spec fn wf(&self) -> bool {
        self.psb.wf() && self.request_handlers.wf()
    }

    pub fn new(
        tc_receiver: R,
        tm_sender: S,
        tm_apid: u16,
        verification_handler: VerificationReporterWithSender<E, V>,
        request_handlers: IdTable<Q>,
    ) -> (r: Self)
        ensures
            r.psb.tc_receiver == tc_receiver,
            r.psb.tm_sender == tm_sender,
            r.psb.tm_apid == tm_apid,
            r.psb.verification_handler == verification_handler,
            r.psb.pus_buf@.len() == crate::pus_service::PUS_BUF_LEN,
            r.request_handlers == request_handlers,
    {
        Self {
            psb: PusServiceBase::new(tc_receiver, tm_sender, tm_apid, verification_handler),
            request_handlers,
        }
    }

    /// What the handling of a telecommand of service 3 leaves behind.
    ///
    /// A request that is not in order, see [`hk_refusal`], is refused: a
    /// failure of the start is reported with the result code, and the result
    /// is an error. Else the sender of its target is asked to send the
    /// request, and the result is `RequestHandled` exactly if it was sent.
    /// Nothing else is sent.
    pub open spec fn hk_handled(
        before: &Self,
        after: &Self,
        tc: crate::tc::TcModel,
        token: VerificationToken<StateAccepted>,
        time_stamp: Seq<u8>,
        r: Result<PusPacketHandlerResult, PusPacketHandlingError>,
    ) -> bool {
        let sub = tc.data_field_header.subservice;
        let data = crate::pus_action::data_of(tc);
        let target = crate::spacepackets::u32_of_be(data.subrange(0, 4));
        let senders = before.request_handlers.entries();
        &&& after.wf()
        &&& match hk_refusal(tc, senders.dom().contains(target)) {
            Some(code) => {
                &&& r.is_err()
                &&& after.request_handlers == before.request_handlers
                &&& exists|reported: bool| #[trigger]
                    PusServiceBase::reported(
                        &before.psb,
                        &after.psb,
                        before.psb.start_failure_tm(token, time_stamp, code, None),
                        reported,
                    )
            },
            None => {
                let log_before = senders[target].sent();
                let log_after = after.request_handlers.entries()[target].sent();
                let asked_before = senders[target].offered();
                let asked_after = after.request_handlers.entries()[target].offered();
                &&& after.psb == before.psb
                &&& after.request_handlers.entries().dom() == senders.dom()
                &&& forall|other: TargetId|
                    other != target && senders.dom().contains(other)
                        ==> #[trigger] after.request_handlers.entries()[other] == senders[other]
                &&& asked_after.len() == asked_before.len() + 1
                &&& asked_after.drop_last() == asked_before
                &&& asked_after.last().token == token
                &&& asked_after.last().targeted_request.target_id == target
                &&& asked_after.last().targeted_request.request == Request::HkRequest(
                    hk_request(sub, data),
                )
                &&& match r {
                    Ok(PusPacketHandlerResult::RequestHandled) => {
                        &&& log_after.len() == log_before.len() + 1
                        &&& log_after.drop_last() == log_before
                        &&& log_after.last().token == token
                        &&& log_after.last().targeted_request.target_id == target
                        &&& log_after.last().targeted_request.request == Request::HkRequest(
                            hk_request(sub, data),
                        )
                    },
                    Err(PusPacketHandlingError::Other(_)) => log_after == log_before,
                    _ => false,
                }
            },
        }
    }

    /// Reports the failure of the start with `code` and gives the error to return.
    fn refuse(&mut self, token: VerificationToken<StateAccepted>, time_stamp: &[u8], code: u16) -> (r:
        PusPacketHandlingError)
        requires
            old(self).wf(),
            old(self).psb.takes_stamp(time_stamp@),
        ensures
            final(self).wf(),
            final(self).request_handlers == old(self).request_handlers,
            exists|reported: bool| #[trigger]
                PusServiceBase::reported(
                    &old(self).psb,
                    &final(self).psb,
                    old(self).psb.start_failure_tm(token, time_stamp@, code, None),
                    reported,
                ),
    {
        let reported = self.psb.report_start_failure(token, time_stamp, code, None);
        if code == INVALID_PUS_SUBSERVICE {
            PusPacketHandlingError::Other("invalid subservice".to_owned())
        } else if code == HK_UNKNOWN_TARGET_ID {
            PusPacketHandlingError::Other("unknown target".to_owned())
        } else {
            PusPacketHandlingError::NotEnoughAppData("housekeeping request too short".to_owned())
        }
    }

    /// Handles a telecommand of service 3 with the given time stamp, see
    /// [`Self::hk_handled`].
    pub fn handle_one_tc_with_stamp(
        &mut self,
        tc: &PusTc,
        token: VerificationToken<StateAccepted>,
        time_stamp: &[u8],
    ) -> (r: Result<PusPacketHandlerResult, PusPacketHandlingError>)
        requires
            old(self).wf(),
            tc.wf(),
            old(self).psb.takes_stamp(time_stamp@),
        ensures
            Self::hk_handled(old(self), final(self), tc@, token, time_stamp@, r),
    {
        let user_data: &[u8] = match tc.user_data() {
            Some(d) => d,
            None => {
                return Err(self.refuse(token, time_stamp, NOT_ENOUGH_APP_DATA));
            },
        };
        if user_data.len() < 4 {
            return Err(self.refuse(token, time_stamp, HK_TARGET_ID_MISSING));
        }
        let addressable_id = match AddressableId::from_raw_be(user_data) {
            Some(id) => id,
            None => {
                return Err(self.refuse(token, time_stamp, HK_UNIQUE_ID_MISSING));
            },
        };
        if !self.request_handlers.contains(addressable_id.target_id) {
            return Err(self.refuse(token, time_stamp, HK_UNKNOWN_TARGET_ID));
        }
        let subservice = tc.subservice();
        let unique_id = addressable_id.unique_id;
        let request = if subservice == TC_ENABLE_HK_GENERATION {
            HkRequest::Enable(unique_id)
        } else if subservice == TC_DISABLE_HK_GENERATION {
            HkRequest::Disable(unique_id)
        } else if subservice == TC_GENERATE_ONE_SHOT_HK {
            HkRequest::OneShot(unique_id)
        } else if subservice == TC_MODIFY_HK_COLLECTION_INTERVAL {
            if user_data.len() < 12 {
                return Err(self.refuse(token, time_stamp, HK_COLLECTION_INTERVAL_MISSING));
            }
            HkRequest::ModifyCollectionInterval(unique_id, u32_from_be(user_data, 8))
        } else {
            return Err(self.refuse(token, time_stamp, INVALID_PUS_SUBSERVICE));
        };
        let target_id = addressable_id.target_id;
        let ghost before_entries = self.request_handlers.entries();
        let sent = match self.request_handlers.get_mut(target_id) {
            Some(sender) => sender.send_request(
                RequestWithToken::new(target_id, Request::HkRequest(request), token),
            ).is_ok(),
            None => false,
        };
        proof {
            assert(self.request_handlers.entries().dom() =~= before_entries.dom());
            let asked_before = before_entries[target_id].offered();
            let asked_after = self.request_handlers.entries()[target_id].offered();
            assert(asked_after.drop_last() =~= asked_before);
        }
        if !sent {
            return Err(PusPacketHandlingError::Other("Sending HK request failed".to_owned()));
        }
        proof {
            let log_before = before_entries[target_id].sent();
            let log_after = self.request_handlers.entries()[target_id].sent();
            assert(log_after.drop_last() =~= log_before);
        }
        Ok(PusPacketHandlerResult::RequestHandled)
    }

    /// The handler is as `before`, but for what an attempt to receive a
    /// telecommand changes, see [`PusServiceBase::only_received`].
    pub open spec fn only_received(before: &Self, after: &Self) -> bool {
        &&& PusServiceBase::only_received(&before.psb, &after.psb)
        &&& after.request_handlers == before.request_handlers
    }

    /// What [`Self::handle_next_packet`] leaves behind and returns. Where no
    /// telecommand was received, nothing was sent and the result says that the
    /// queue is empty or why nothing could be received. Else the telecommand
    /// that was received was handled as [`Self::hk_handled`] says, for a time stamp
    /// as the clock gives it, or for a time stamp of zeroes where the time
    /// could not be had.
    pub open spec fn next_handled(
        before: &Self,
        after: &Self,
        r: Result<PusPacketHandlerResult, PusPacketHandlingError>,
    ) -> bool {
        ||| crate::pus_service::nothing_handled(r) && Self::only_received(before, after)
        ||| exists|mid: Self, tc: PusTc, token: VerificationToken<StateAccepted>, time_stamp: Seq<u8>|
            Self::only_received(before, &mid) && tc.wf() && (crate::pus_service::stamp_from_clock(
                time_stamp,
                false,
            ) || crate::pus_service::stamp_from_clock(time_stamp, true)) && #[trigger] Self::hk_handled(
                &mid,
                after,
                tc@,
                token,
                time_stamp,
                r,
            )
    }

    /// Takes the next telecommand from the receiver, if there is one, and
    /// handles it with the current time as time stamp, see
    /// [`Self::next_handled`].
    pub fn handle_next_packet(&mut self) -> (r: Result<PusPacketHandlerResult, PusPacketHandlingError>)
        requires
            old(self).wf(),
        ensures
            final(self).wf(),
            Self::next_handled(old(self), final(self), r),
    {
        let (tc, _addr, token) = match self.psb.retrieve_and_accept_next_packet() {
            Ok(Some(received)) => received,
            Ok(None) => {
                return Ok(PusPacketHandlerResult::Empty);
            },
            Err(e) => {
                return Err(e);
            },
        };
        let ghost mid = *self;
        let time_stamp = PusServiceBase::<E, R, S, V>::get_current_timestamp_ignore_error();
        let r = self.handle_one_tc_with_stamp(&tc, token, &time_stamp);
        proof {
            assert(Self::hk_handled(&mid, self, tc@, token, time_stamp@, r));
        }
        r
    }
}

} // verus!
