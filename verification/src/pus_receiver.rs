//! The distributor of telecommands: it reports the acceptance of a
//! telecommand and sends it on to the handler of its PUS service.
use crate::event_man::SendEventProvider;
use crate::events::EventU32;
use crate::params::Params;
use crate::pool::{StoreAddr, StoreError};
use crate::pus::{AcceptedTc, EcssTmtcError, GenericSendError};
use crate::requests::AcceptedTcSender;
use crate::res_code::{ResultU16, PUS_SERVICE_NOT_IMPLEMENTED};
use crate::spacepackets::MAX_APID;
use crate::tc::PusTc;
use crate::time::TimeStampHelper;
use crate::tm::TmModel;
use crate::tm_helper::PusTmWithCdsShortHelper;
use crate::verification::{
    FailParams, RequestIdModel, VerificationReporterWithSender, VerificationSender,
};
use vstd::prelude::*;

verus! {

/// The PUS services of the standard.
#[derive(Debug, Copy, Clone, PartialEq, Eq, Structural)]
pub enum PusServiceId {
    Verification,
    Housekeeping,
    Event,
    Action,
    Scheduling,
    Test,
    /// Another service of the standard, by its number.
    OtherStandard(u8),
}

/// The services of the mission.
#[derive(Debug, Copy, Clone, PartialEq, Eq, Structural)]
pub enum CustomPusServiceId {
    Mode,
    Health,
}

/// The number of the mode service.
pub const SERVICE_MODE: u8 = 200;

/// The number of the health service.
pub const SERVICE_HEALTH: u8 = 201;

/// Where a telecommand goes.
#[derive(Debug, Copy, Clone, PartialEq, Eq, Structural)]
pub enum Route {
    /// To the handler of this service.
    Handler(PusServiceId),
    /// Nowhere: the service is one of the standard that nobody handles.
    NotImplemented(u8),
    /// Nowhere: the service is one of the mission that needs no handler.
    Custom(CustomPusServiceId),
    /// Nowhere: there is no service with this number.
    Unknown(u8),
}

/// Where a telecommand of the given service goes. The services 3, 5, 8, 11
/// and 17 have handlers; the other services of the standard, which have the
/// numbers 1 to 23 without 7, 10 and 16, have none; 200 and 201 are the
/// services of the mission.
pub open spec fn route_spec(service: u8) -> Route {
    if service == 17 {
        Route::Handler(PusServiceId::Test)
    } else if service == 3 {
        Route::Handler(PusServiceId::Housekeeping)
    } else if service == 5 {
        Route::Handler(PusServiceId::Event)
    } else if service == 11 {
        Route::Handler(PusServiceId::Scheduling)
    } else if service == 8 {
        Route::Handler(PusServiceId::Action)
    } else if service == SERVICE_MODE {
        Route::Custom(CustomPusServiceId::Mode)
    } else if service == SERVICE_HEALTH {
        Route::Custom(CustomPusServiceId::Health)
    } else if 1 <= service <= 23 && service != 7 && service != 10 && service != 16 {
        Route::NotImplemented(service)
    } else {
        Route::Unknown(service)
    }
}

/// Where a telecommand of the given service goes.
pub fn route_for(service: u8) -> (r: Route)
    ensures
        r == route_spec(service),
{
    match service {
        17 => Route::Handler(PusServiceId::Test),
        3 => Route::Handler(PusServiceId::Housekeeping),
        5 => Route::Handler(PusServiceId::Event),
        11 => Route::Handler(PusServiceId::Scheduling),
        8 => Route::Handler(PusServiceId::Action),
        200 => Route::Custom(CustomPusServiceId::Mode),
        201 => Route::Custom(CustomPusServiceId::Health),
        7 | 10 | 16 => Route::Unknown(service),
        1..=23 => Route::NotImplemented(service),
        _ => Route::Unknown(service),
    }
}

/// The senders to the handlers of the services.
pub struct PusTcMpscRouter<T: AcceptedTcSender> {
    pub test_service_receiver: T,
    pub event_service_receiver: T,
    pub sched_service_receiver: T,
    pub hk_service_receiver: T,
    pub action_service_receiver: T,
}

impl<T: AcceptedTcSender> PusTcMpscRouter<T> {
    /// What was sent to the handler of `service`.
    pub open spec fn sent_to(&self, service: PusServiceId) -> Seq<AcceptedTc> {
        match service {
            PusServiceId::Test => self.test_service_receiver.sent(),
            PusServiceId::Event => self.event_service_receiver.sent(),
            PusServiceId::Scheduling => self.sched_service_receiver.sent(),
            PusServiceId::Housekeeping => self.hk_service_receiver.sent(),
            PusServiceId::Action => self.action_service_receiver.sent(),
            _ => Seq::empty(),
        }
    }

    /// What the sender to the handler of `service` was asked to send.
    pub open spec fn offered_to(&self, service: PusServiceId) -> Seq<AcceptedTc> {
        match service {
            PusServiceId::Test => self.test_service_receiver.offered(),
            PusServiceId::Event => self.event_service_receiver.offered(),
            PusServiceId::Scheduling => self.sched_service_receiver.offered(),
            PusServiceId::Housekeeping => self.hk_service_receiver.offered(),
            PusServiceId::Action => self.action_service_receiver.offered(),
            _ => Seq::empty(),
        }
    }

    /// Sends an accepted telecommand to the handler of `service`: the sender
    /// to that handler is asked. Nothing is sent to the other handlers, and
    /// their senders are not asked.
    pub fn send_to(&mut self, service: PusServiceId, tc: AcceptedTc) -> (r: Result<(), GenericSendError>)
        requires
            service == PusServiceId::Test || service == PusServiceId::Event || service
                == PusServiceId::Scheduling || service == PusServiceId::Housekeeping || service
                == PusServiceId::Action,
        ensures
            final(self).sent_to(service) == (if r.is_ok() {
                old(self).sent_to(service).push(tc)
            } else {
                old(self).sent_to(service)
            }),
            forall|other: PusServiceId|
                other != service ==> #[trigger] final(self).sent_to(other) == old(self).sent_to(other),
            final(self).offered_to(service) == old(self).offered_to(service).push(tc),
            forall|other: PusServiceId|
                other != service ==> #[trigger] final(self).offered_to(other) == old(self).offered_to(
                    other,
                ),
    {
        match service {
            PusServiceId::Test => self.test_service_receiver.send_accepted(tc),
            PusServiceId::Event => self.event_service_receiver.send_accepted(tc),
            PusServiceId::Scheduling => self.sched_service_receiver.send_accepted(tc),
            PusServiceId::Housekeeping => self.hk_service_receiver.send_accepted(tc),
            _ => self.action_service_receiver.send_accepted(tc),
        }
    }
}

/// What the distributor needs for telemetry.
pub struct PusTmArgs<E, V: VerificationSender<E>> {
    /// All verification reporting is done with this reporter.
    pub verif_reporter: VerificationReporterWithSender<E, V>,
}

/// What the distributor needs for telecommands.
pub struct PusTcArgs<T: AcceptedTcSender, ES: SendEventProvider<EventU32, Params>> {
    /// This routes all telecommands to their handlers.
    pub pus_router: PusTcMpscRouter<T>,
    /// Used to send events from within the distributor.
    pub event_sender: ES,
}

/// Why a telecommand was not distributed.
#[derive(Debug, Clone, Copy, PartialEq, Eq, Structural)]
pub enum MpscStoreAndSendError {
    StoreError(StoreError),
    /// The handler of the service does not listen any more.
    TcSendError(GenericSendError),
    TmTcSendError(EcssTmtcError),
    /// The verification report could not be sent.
    VerificationError,
}

/// The distributor.
pub struct PusReceiver<E, V, T, ES> where
    V: VerificationSender<E>,
    T: AcceptedTcSender,
    ES: SendEventProvider<EventU32, Params>,
 {
    pub tm_helper: PusTmWithCdsShortHelper,
    pub tm_args: PusTmArgs<E, V>,
    pub tc_args: PusTcArgs<T, ES>,
    pub stamp_helper: TimeStampHelper,
}

impl<E, V, T, ES> PusReceiver<E, V, T, ES> where
    V: VerificationSender<E>,
    T: AcceptedTcSender,
    ES: SendEventProvider<EventU32, Params>,
 {
    /// The distributor can work: the sender of the reports is in order, the
    /// APID of the reporter has 11 bits, and a report with a time stamp of
    /// seven bytes has a length that a `usize` can say.
    pub open spec fn wf(&self) -> bool {
        &&& self.tm_args.verif_reporter.sender.usable()
        &&& self.tm_args.verif_reporter.reporter.apid <= MAX_APID
        &&& crate::tm::PUS_TM_MIN_LEN + 7 + self.tm_args.verif_reporter.reporter.buf_len() <= usize::MAX
    }

    /// The verification reports sent so far.
    pub open spec fn vlog(&self) -> Seq<TmModel> {
        self.tm_args.verif_reporter.sender.sent()
    }

    pub fn new(apid: u16, tm_arguments: PusTmArgs<E, V>, tc_arguments: PusTcArgs<T, ES>) -> (r: Self)
        ensures
            r.tm_args == tm_arguments,
            r.tc_args == tc_arguments,
    {
        Self {
            tm_helper: PusTmWithCdsShortHelper::new(apid),
            tm_args: tm_arguments,
            tc_args: tc_arguments,
            stamp_helper: TimeStampHelper::new(),
        }
    }

    /// The report that is expected for a telecommand on the given route: its
    /// acceptance where it goes to a handler or belongs to a service of the
    /// mission; else the failure of its acceptance, with the service as failure
    /// data and with the code for a service that is not implemented, also
    /// where the number is that of no service.
    pub open spec fn expected_report(
        &self,
        route: Route,
        req_id: crate::verification::RequestId,
        time_stamp: Seq<u8>,
    ) -> TmModel {
        let rep = self.tm_args.verif_reporter.reporter;
        match route {
            Route::Handler(_) => rep.success_tm(1, req_id, time_stamp, None),
            Route::Custom(_) => rep.success_tm(1, req_id, time_stamp, None),
            Route::NotImplemented(s) => crate::verification::verification_tm(
                rep.apid,
                rep.dest_id,
                rep.msg_count(),
                2,
                time_stamp,
                crate::verification::failure_source_data(
                    req_id@,
                    None,
                    crate::spacepackets::be_bytes_u16(PUS_SERVICE_NOT_IMPLEMENTED),
                    Some(seq![s]),
                ),
            ),
            Route::Unknown(s) => crate::verification::verification_tm(
                rep.apid,
                rep.dest_id,
                rep.msg_count(),
                2,
                time_stamp,
                crate::verification::failure_source_data(
                    req_id@,
                    None,
                    crate::spacepackets::be_bytes_u16(PUS_SERVICE_NOT_IMPLEMENTED),
                    Some(seq![s]),
                ),
            ),
        }
    }

    /// What the distribution of a telecommand leaves behind.
    ///
    /// One report is due, see [`Self::expected_report`], and the sender is
    /// asked for it where it fits the buffer of the reporter. Where it could not be
    /// sent, nothing else happens and the result is an error. A telecommand
    /// for a handler then goes to that handler with the token of its
    /// acceptance, and to no other: the sender to that handler is asked, and
    /// the result is `Ok` exactly if it took the telecommand.
    /// A telecommand for a service without a handler goes nowhere, and the
    /// result is `Ok` once its report was sent.
    pub open spec fn distributed(
        before: &Self,
        after: &Self,
        store_addr: StoreAddr,
        service: u8,
        tc: crate::tc::TcModel,
        time_stamp: Seq<u8>,
        r: Result<(), MpscStoreAndSendError>,
    ) -> bool {
        let route = route_spec(service);
        let router0 = before.tc_args.pus_router;
        let router1 = after.tc_args.pus_router;
        let reported = after.vlog().len() > before.vlog().len();
        &&& after.wf()
        &&& after.tm_args.verif_reporter.reporter.same_setup(&before.tm_args.verif_reporter.reporter)
        &&& after.tc_args.event_sender == before.tc_args.event_sender
        &&& exists|req_id: crate::verification::RequestId|
            {
                &&& req_id@ == RequestIdModel::of_header(tc.sph)
                &&& #[trigger] crate::pus_test::grown_by_at_most(
                    before.vlog(),
                    after.vlog(),
                    before.expected_report(route, req_id, time_stamp),
                )
                &&& after.tm_args.verif_reporter.sender.offered() == (if before.expected_report(
                    route,
                    req_id,
                    time_stamp,
                ).source_data.len() <= before.tm_args.verif_reporter.reporter.buf_len() {
                    before.tm_args.verif_reporter.sender.offered().push(
                        before.expected_report(route, req_id, time_stamp),
                    )
                } else {
                    before.tm_args.verif_reporter.sender.offered()
                })
                &&& match route {
                    Route::Handler(h) => {
                        &&& forall|other: PusServiceId|
                            other != h ==> #[trigger] router1.sent_to(other) == router0.sent_to(other)
                        &&& forall|other: PusServiceId|
                            other != h ==> #[trigger] router1.offered_to(other) == router0.offered_to(
                                other,
                            )
                        &&& if reported {
                            &&& router1.offered_to(h).len() == router0.offered_to(h).len() + 1
                            &&& router1.offered_to(h).drop_last() == router0.offered_to(h)
                            &&& router1.offered_to(h).last().0 == store_addr
                            &&& router1.offered_to(h).last().1.req_id_spec() == req_id
                        } else {
                            router1.offered_to(h) == router0.offered_to(h)
                        }
                        &&& if r.is_ok() {
                            &&& reported
                            &&& router1.sent_to(h).len() == router0.sent_to(h).len() + 1
                            &&& router1.sent_to(h).drop_last() == router0.sent_to(h)
                            &&& router1.sent_to(h).last().0 == store_addr
                            &&& router1.sent_to(h).last().1.req_id_spec() == req_id
                        } else {
                            router1.sent_to(h) == router0.sent_to(h)
                        }
                    },
                    _ => router1 == router0 && r.is_ok() == reported && (r matches Err(e) ==> e
                        == MpscStoreAndSendError::VerificationError),
                }
            }
    }

    /// Distributes a telecommand with the given time stamp, see [`Self::distributed`].
    #[verifier::rlimit(60)]
    pub fn handle_tc_packet_with_stamp(
        &mut self,
        store_addr: StoreAddr,
        service: u8,
        pus_tc: &PusTc,
        time_stamp: &[u8],
    ) -> (r: Result<(), MpscStoreAndSendError>)
        requires
            old(self).wf(),
            old(self).tm_args.verif_reporter.reporter.ready(time_stamp@),
        ensures
            Self::distributed(old(self), final(self), store_addr, service, pus_tc@, time_stamp@, r),
    {
        let init_token = self.tm_args.verif_reporter.add_tc(pus_tc);
        let ghost req_id = init_token.req_id_spec();
        let service_byte = [service];
        assert(service_byte@ =~= seq![service]);
        match route_for(service) {
            Route::Handler(handler) => {
                let accepted_token = match self.tm_args.verif_reporter.acceptance_success(
                    init_token,
                    time_stamp,
                ) {
                    Ok(t) => t,
                    Err(_) => {
                        proof {
                            assert(crate::pus_test::grown_by_at_most(
                                old(self).vlog(),
                                self.vlog(),
                                old(self).expected_report(route_spec(service), req_id, time_stamp@),
                            ));
                        }
                        return Err(MpscStoreAndSendError::VerificationError);
                    },
                };
                let ghost before_send = self.tc_args.pus_router;
                let sent = self.tc_args.pus_router.send_to(handler, (store_addr, accepted_token));
                proof {
                    assert(crate::pus_test::grown_by_at_most(
                        old(self).vlog(),
                        self.vlog(),
                        old(self).expected_report(route_spec(service), req_id, time_stamp@),
                    ));
                    if sent.is_ok() {
                        assert(self.tc_args.pus_router.sent_to(handler).drop_last() =~= before_send.sent_to(
                            handler,
                        ));
                    }
                    assert(self.tc_args.pus_router.offered_to(handler).drop_last()
                        =~= before_send.offered_to(handler));
                }
                match sent {
                    Ok(()) => Ok(()),
                    Err(e) => Err(MpscStoreAndSendError::TcSendError(e)),
                }
            },
            Route::Custom(_) => {
                let accepted = self.tm_args.verif_reporter.acceptance_success(init_token, time_stamp);
                proof {
                    assert(crate::pus_test::grown_by_at_most(
                        old(self).vlog(),
                        self.vlog(),
                        old(self).expected_report(route_spec(service), req_id, time_stamp@),
                    ));
                }
                match accepted {
                    Ok(_) => Ok(()),
                    Err(_) => Err(MpscStoreAndSendError::VerificationError),
                }
            },
            Route::NotImplemented(_) => {
                let code = ResultU16::from_raw(PUS_SERVICE_NOT_IMPLEMENTED);
                let refused = self.tm_args.verif_reporter.acceptance_failure(
                    init_token,
                    FailParams::new(time_stamp, &code, Some(&service_byte)),
                );
                proof {
                    assert(crate::pus_test::grown_by_at_most(
                        old(self).vlog(),
                        self.vlog(),
                        old(self).expected_report(route_spec(service), req_id, time_stamp@),
                    ));
                }
                match refused {
                    Ok(()) => Ok(()),
                    Err(_) => Err(MpscStoreAndSendError::VerificationError),
                }
            },
            Route::Unknown(_) => {
                let code = ResultU16::from_raw(PUS_SERVICE_NOT_IMPLEMENTED);
                let refused = self.tm_args.verif_reporter.acceptance_failure(
                    init_token,
                    FailParams::new(time_stamp, &code, Some(&service_byte)),
                );
                proof {
                    assert(crate::pus_test::grown_by_at_most(
                        old(self).vlog(),
                        self.vlog(),
                        old(self).expected_report(route_spec(service), req_id, time_stamp@),
                    ));
                }
                match refused {
                    Ok(()) => Ok(()),
                    Err(_) => Err(MpscStoreAndSendError::VerificationError),
                }
            },
        }
    }

    /// The distributor is as `before`, but for its time stamp, which is
    /// `time_stamp`: it was set to the time of the clock, or is as it was
    /// where the time could not be had.
    pub open spec fn stamped(before: &Self, after: &Self, time_stamp: Seq<u8>) -> bool {
        &&& after.tm_args == before.tm_args
        &&& after.tc_args == before.tc_args
        &&& after.tm_helper == before.tm_helper
        &&& time_stamp == after.stamp_helper.stamp_spec()
        &&& {
            ||| after.stamp_helper == before.stamp_helper
            ||| after.stamp_helper.stamper().after_epoch() && time_stamp
                == after.stamp_helper.stamper().bytes()
        }
    }

    /// What the distribution of a telecommand with the time of the clock as
    /// time stamp leaves behind and returns: the time stamp is set, see
    /// [`Self::stamped`], and from there the telecommand is distributed as
    /// [`Self::distributed`] says for that time stamp.
    pub open spec fn distributed_now(
        before: &Self,
        after: &Self,
        store_addr: StoreAddr,
        service: u8,
        tc: crate::tc::TcModel,
        r: Result<(), MpscStoreAndSendError>,
    ) -> bool {
        exists|mid: Self, time_stamp: Seq<u8>|
            Self::stamped(before, &mid, time_stamp) && #[trigger] Self::distributed(
                &mid,
                after,
                store_addr,
                service,
                tc,
                time_stamp,
                r,
            )
    }

    /// Distributes a telecommand with the current time as time stamp, see
    /// [`Self::distributed_now`]. Where the time cannot be had the time stamp
    /// that was there is used.
    pub fn handle_tc_packet(&mut self, store_addr: StoreAddr, service: u8, pus_tc: &PusTc) -> (r: Result<
        (),
        MpscStoreAndSendError,
    >)
        requires
            old(self).wf(),
        ensures
            final(self).wf(),
            Self::distributed_now(old(self), final(self), store_addr, service, pus_tc@, r),
    {
        let updated = self.stamp_helper.update_from_now();
        let mut stamp = [0u8, 0, 0, 0, 0, 0, 0];
        crate::spacepackets::copy_into(&mut stamp, 0, self.stamp_helper.stamp());
        let ghost mid = *self;
        proof {
            assert(stamp@ =~= self.stamp_helper.stamp_spec());
            assert(Self::stamped(old(self), &mid, stamp@));
        }
        let r = self.handle_tc_packet_with_stamp(store_addr, service, pus_tc, &stamp);
        proof {
            assert(Self::distributed(&mid, self, store_addr, service, pus_tc@, stamp@, r));
        }
        r
    }
}

} // verus!
