//! PUS service 11: the handler for the telecommands that steer the scheduler.
//!
//! TC[11, 1] enables the scheduler, TC[11, 2] disables it, TC[11, 3] resets
//! it, and TC[11, 4] schedules the telecommand that it carries.
use crate::pool::{PoolProvider, StoreAddr};
use crate::pus::{EcssTcReceiverCore, EcssTmSenderCore};
use crate::pus_service::{PusPacketHandlerResult, PusPacketHandlingError, PusServiceBase};
use crate::res_code::{NOT_ENOUGH_APP_DATA, INVALID_PUS_SUBSERVICE};
use crate::scheduling::{
    PusScheduler, ScheduleError, SchedulerModel, TC_DISABLE_SCHEDULING, TC_ENABLE_SCHEDULING,
    TC_INSERT_ACTIVITY, TC_RESET_SCHEDULING,
};
use crate::tc::PusTc;
use crate::tm::TmModel;
use crate::verification::{
    StateAccepted, TcStateToken, VerificationReporterWithSender, VerificationSender,
    VerificationToken,
};
use vstd::prelude::*;

verus! {

/// The handler of service 11.
pub struct PusService11SchedHandler<E, R, S, V, P> where
    R: EcssTcReceiverCore,
    S: EcssTmSenderCore,
    V: VerificationSender<E>,
    P: PoolProvider,
 {
    pub psb: PusServiceBase<E, R, S, V>,
    pub scheduler: PusScheduler,
    pub tc_pool: P,
}

/// What the scheduler is after the telecommand with the given subservice,
/// for the three subservices that switch it.
pub open spec fn switched(before: SchedulerModel, subservice: u8) -> SchedulerModel {
    if subservice == TC_ENABLE_SCHEDULING {
        SchedulerModel { enabled: true, ..before }
    } else if subservice == TC_DISABLE_SCHEDULING {
        SchedulerModel { enabled: false, ..before }
    } else {
        SchedulerModel { enabled: false, entries: Seq::empty(), ..before }
    }
}

/// The result code that is reported where the telecommand that `tc` carries
/// could not be scheduled: one for application data that is shorter than a
/// release time, another one for everything else.
pub open spec fn insertion_error_code(tc: crate::tc::TcModel) -> u16 {
    match crate::scheduling::wrapped_tc(tc) {
        Err(ScheduleError::TcDataEmpty) => NOT_ENOUGH_APP_DATA,
        _ => INVALID_PUS_SUBSERVICE,
    }
}

/// What the attempt to schedule the telecommand that `tc` carries does to the
/// scheduler and to what was added to the pool. Nothing changes where `tc` is
/// not in order, see [`crate::scheduling::wrapped_tc`], where the release time
/// lies further ahead than the margin allows, or where the pool does not take
/// the telecommand. Else the telecommand is added to the pool and its address
/// is entered under its release time.
pub open spec fn insertion_effect(
    before: SchedulerModel,
    after: SchedulerModel,
    added_before: Seq<(StoreAddr, Seq<u8>)>,
    added_after: Seq<(StoreAddr, Seq<u8>)>,
    tc: crate::tc::TcModel,
) -> bool {
    let unchanged = after == before && added_after == added_before;
    match crate::scheduling::wrapped_tc(tc) {
        Err(_) => unchanged,
        Ok((release, bytes)) => if release > before.current_time + before.margin {
            unchanged
        } else {
            ||| unchanged
            ||| {
                &&& added_after == added_before.push((added_after.last().0, bytes))
                &&& after.current_time == before.current_time
                &&& after.margin == before.margin
                &&& after.enabled == before.enabled
                &&& crate::scheduling::inserted(
                    before.entries,
                    release,
                    added_after.last().0,
                    after.entries,
                )
            }
        },
    }
}

impl<E, R, S, V, P> PusService11SchedHandler<E, R, S, V, P> where
    R: EcssTcReceiverCore,
    S: EcssTmSenderCore,
    V: VerificationSender<E>,
    P: PoolProvider,
 {
    /// The handler can work: its parts are in order.
    pub open spec fn wf(&self) -> bool {
        self.psb.wf() && self.scheduler.wf() && self.tc_pool.usable()
    }

    pub fn new(
        tc_receiver: R,
        tc_pool: P,
        tm_sender: S,
        tm_apid: u16,
        verification_handler: VerificationReporterWithSender<E, V>,
        scheduler: PusScheduler,
    ) -> (r: Self)
        ensures
            r.psb.tc_receiver == tc_receiver,
            r.psb.tm_sender == tm_sender,
            r.psb.tm_apid == tm_apid,
            r.psb.verification_handler == verification_handler,
            r.psb.pus_buf@.len() == crate::pus_service::PUS_BUF_LEN,
            r.scheduler == scheduler,
            r.tc_pool == tc_pool,
    {
        Self {
            psb: PusServiceBase::new(tc_receiver, tm_sender, tm_apid, verification_handler),
            scheduler,
            tc_pool,
        }
    }

    /// What the handling of a telecommand that switches the scheduler leaves
    /// behind. The start is reported, then the scheduler is switched, then the
    /// completion is reported. Where the start could not be reported nothing
    /// is done; the result is `RequestHandled` exactly if both reports were
    /// sent. On a reset the slots of the telecommands that waited are given
    /// back to the pool, see [`crate::pool::PoolModel::freed_all`]: that much
    /// is said of a pool that nobody else changes.
    pub open spec fn switch_handled(
        before: &Self,
        after: &Self,
        subservice: u8,
        token: VerificationToken<StateAccepted>,
        time_stamp: Seq<u8>,
        r: Result<PusPacketHandlerResult, PusPacketHandlingError>,
    ) -> bool {
        let n = after.psb.reports_since(&before.psb);
        &&& after.wf()
        &&& PusServiceBase::bracketed(&before.psb, &after.psb, token, time_stamp)
        &&& after.tc_pool.added() == before.tc_pool.added()
        &&& after.scheduler@ == (if n == 0 {
            before.scheduler@
        } else {
            switched(before.scheduler@, subservice)
        })
        &&& before.tc_pool.exclusive() ==> after.tc_pool.exclusive() && after.tc_pool.model() == (if n
            > 0 && subservice == TC_RESET_SCHEDULING {
            before.tc_pool.model().freed_all(
                crate::scheduling::due_addrs(
                    before.scheduler@.entries,
                    crate::scheduling::max_key(before.scheduler@.entries),
                ),
            )
        } else {
            before.tc_pool.model()
        })
        &&& match r {
            Ok(PusPacketHandlerResult::RequestHandled) => n == 2,
            Ok(_) => false,
            Err(PusPacketHandlingError::Other(_)) => n < 2,
            Err(_) => false,
        }
    }

    /// Handles TC[11, 1], TC[11, 2] or TC[11, 3], see [`Self::switch_handled`].
    /// On a reset the telecommands that wait are given back to the pool.
    pub fn handle_switch(
        &mut self,
        subservice: u8,
        token: VerificationToken<StateAccepted>,
        time_stamp: &[u8],
    ) -> (r: Result<PusPacketHandlerResult, PusPacketHandlingError>)
        requires
            old(self).wf(),
            old(self).psb.takes_stamp(time_stamp@),
            subservice == TC_ENABLE_SCHEDULING || subservice == TC_DISABLE_SCHEDULING || subservice
                == TC_RESET_SCHEDULING,
        ensures
            Self::switch_handled(old(self), final(self), subservice, token, time_stamp@, r),
    {
        let ghost psb0 = self.psb;
        let start_token = match self.psb.report_start(token, time_stamp) {
            Some(t) => t,
            None => {
                proof {
                    PusServiceBase::lemma_no_bracket(&psb0, &self.psb, token, time_stamp@);
                }
                return Err(PusPacketHandlingError::Other("Error sending start success".to_owned()));
            },
        };
        let ghost psb1 = self.psb;
        if subservice == TC_ENABLE_SCHEDULING {
            self.scheduler.enable();
        } else if subservice == TC_DISABLE_SCHEDULING {
            self.scheduler.disable();
        } else {
            let waiting = self.scheduler.scheduled_addrs();
            let mut i: usize = 0;
            while i < waiting.len()
                invariant
                    i <= waiting@.len(),
                    self.tc_pool.usable(),
                    self.tc_pool.added() == old(self).tc_pool.added(),
                    self.psb == psb1,
                    self.scheduler == old(self).scheduler,
                    old(self).tc_pool.exclusive() ==> self.tc_pool.exclusive()
                        && self.tc_pool.model() == old(self).tc_pool.model().freed_all(
                        waiting@.subrange(0, i as int),
                    ),
                decreases waiting@.len() - i,
            {
                let freed = self.tc_pool.delete(&waiting[i]);
                proof {
                    assert(waiting@.subrange(0, i as int + 1).drop_last() =~= waiting@.subrange(
                        0,
                        i as int,
                    ));
                }
                i += 1;
            }
            proof {
                assert(waiting@.subrange(0, waiting@.len() as int) =~= waiting@);
            }
            self.scheduler.reset();
        }
        let completed = self.psb.report_completion(start_token, time_stamp);
        proof {
            PusServiceBase::lemma_bracket(
                &psb0,
                &psb1,
                &self.psb,
                token,
                start_token,
                time_stamp@,
                completed,
            );
        }
        if !completed {
            return Err(PusPacketHandlingError::Other("Error sending completion success".to_owned()));
        }
        Ok(PusPacketHandlerResult::RequestHandled)
    }

    /// What the handling of TC[11, 4] leaves behind. The start is reported;
    /// where that fails nothing is done. Then the telecommand that `tc`
    /// carries is scheduled, see [`insertion_effect`]. Where that worked the
    /// completion is reported, else its failure with the code of
    /// [`insertion_error_code`]. The result is `RequestHandled` exactly if the
    /// telecommand was scheduled and both reports were sent.
    pub open spec fn insert_handled(
        before: &Self,
        after: &Self,
        tc: crate::tc::TcModel,
        token: VerificationToken<StateAccepted>,
        time_stamp: Seq<u8>,
        r: Result<PusPacketHandlerResult, PusPacketHandlingError>,
    ) -> bool {
        let n = after.psb.reports_since(&before.psb);
        let rep = before.psb.verification_handler.reporter;
        let start = rep.success_tm(3, token.req_id_spec(), time_stamp, None);
        let scheduled = after.tc_pool.added().len() > before.tc_pool.added().len();
        &&& after.wf()
        &&& after.psb.same_setup(&before.psb)
        &&& after.psb.tm_sender == before.psb.tm_sender
        &&& 0 <= n <= 2
        &&& after.psb.vlog().subrange(0, before.psb.vlog().len() as int) == before.psb.vlog()
        &&& n >= 1 ==> after.psb.vlog()[before.psb.vlog().len() as int] == start
        &&& insertion_effect(
            before.scheduler@,
            after.scheduler@,
            before.tc_pool.added(),
            after.tc_pool.added(),
            tc,
        )
        &&& n == 0 ==> !scheduled
        &&& n == 2 ==> after.psb.vlog()[before.psb.vlog().len() as int + 1] == (if scheduled {
            TmModel {
                subservice: 7,
                msg_counter: crate::verification::next_count(rep.msg_count()),
                ..start
            }
        } else {
            crate::verification::verification_tm(
                rep.apid,
                rep.dest_id,
                crate::verification::next_count(rep.msg_count()),
                8,
                time_stamp,
                crate::verification::failure_source_data(
                    token.req_id_spec()@,
                    None,
                    crate::spacepackets::be_bytes_u16(insertion_error_code(tc)),
                    None,
                ),
            )
        })
        &&& match r {
            Ok(PusPacketHandlerResult::RequestHandled) => n == 2 && scheduled,
            Ok(_) => false,
            Err(_) => !(n == 2 && scheduled),
        }
    }

    /// Handles TC[11, 4], see [`Self::insert_handled`].
    #[verifier::rlimit(60)]
    pub fn handle_insert_activity(
        &mut self,
        tc: &PusTc,
        token: VerificationToken<StateAccepted>,
        time_stamp: &[u8],
    ) -> (r: Result<PusPacketHandlerResult, PusPacketHandlingError>)
        requires
            old(self).wf(),
            tc.wf(),
            old(self).psb.takes_stamp(time_stamp@),
        ensures
            Self::insert_handled(old(self), final(self), tc@, token, time_stamp@, r),
    {
        let ghost psb0 = self.psb;
        let ghost v0 = self.psb.vlog();
        let start_token = match self.psb.report_start(token, time_stamp) {
            Some(t) => t,
            None => {
                assert(self.psb.vlog().subrange(0, v0.len() as int) =~= v0);
                return Err(PusPacketHandlingError::Other("error sending start success".to_owned()));
            },
        };
        let ghost psb1 = self.psb;
        let scheduled = self.scheduler.insert_wrapped_tc(tc, &mut self.tc_pool);
        match scheduled {
            Ok(_) => {
                let completed = self.psb.report_completion(start_token, time_stamp);
                proof {
                    crate::pus_test::lemma_completion_after_start(
                        &psb0.verification_handler.reporter,
                        &psb1.verification_handler.reporter,
                        token.req_id_spec(),
                        time_stamp@,
                    );
                    assert(self.psb.vlog().subrange(0, v0.len() as int) =~= v0);
                    assert(psb1.vlog() == v0.push(psb0.verification_handler.reporter.success_tm(
                        3, token.req_id_spec(), time_stamp@, None)));
                    if completed {
                        assert(self.psb.vlog()[v0.len() as int + 1] == psb1.verification_handler.reporter.success_tm(
                            7, start_token.req_id_spec(), time_stamp@, None));
                    }
                }
                if !completed {
                    return Err(
                        PusPacketHandlingError::Other("sending completion success failed".to_owned()),
                    );
                }
                Ok(PusPacketHandlerResult::RequestHandled)
            },
            Err(e) => {
                let code = match e {
                    ScheduleError::TcDataEmpty => NOT_ENOUGH_APP_DATA,
                    _ => INVALID_PUS_SUBSERVICE,
                };
                let reported = self.psb.report_completion_failure(start_token, time_stamp, code);
                proof {
                    assert(self.psb.vlog().subrange(0, v0.len() as int) =~= v0);
                }
                match e {
                    ScheduleError::TcDataEmpty => Err(
                        PusPacketHandlingError::NotEnoughAppData("no release time".to_owned()),
                    ),
                    ScheduleError::StoreError(se) => Err(PusPacketHandlingError::StoreError(se)),
                    ScheduleError::PusError(pe) => Err(PusPacketHandlingError::Pus(pe)),
                    _ => Err(
                        PusPacketHandlingError::InvalidAppData(
                            "insertion of activity into pool failed".to_owned(),
                        ),
                    ),
                }
            },
        }
    }

    /// What the handling of a telecommand with a given time stamp leaves
    /// behind and returns: see [`Self::switch_handled`] for the subservices 1
    /// to 3 and [`Self::insert_handled`] for subservice 4. Any other subservice
    /// is handed back with the token, and nothing changes.
    pub open spec fn handled(
        before: &Self,
        after: &Self,
        tc: &PusTc,
        token: VerificationToken<StateAccepted>,
        time_stamp: Seq<u8>,
        r: Result<PusPacketHandlerResult, PusPacketHandlingError>,
    ) -> bool {
        let sub = tc@.data_field_header.subservice;
        &&& after.wf()
        &&& if sub == TC_ENABLE_SCHEDULING || sub == TC_DISABLE_SCHEDULING || sub == TC_RESET_SCHEDULING {
            Self::switch_handled(before, after, sub, token, time_stamp, r)
        } else if sub == TC_INSERT_ACTIVITY {
            Self::insert_handled(before, after, tc@, token, time_stamp, r)
        } else {
            &&& r matches Ok(PusPacketHandlerResult::CustomSubservice(s, t)) && s == sub && t
                == TcStateToken::Accepted(token)
            &&& *after == *before
        }
    }

    /// Handles a telecommand of service 11 with the given time stamp, see
    /// [`Self::handled`].
    pub fn handle_one_tc_with_stamp(
        &mut self,
        tc: &PusTc,
        token: VerificationToken<StateAccepted>,
        time_stamp: &[u8],
    ) -> (r: Result<PusPacketHandlerResult, PusPacketHandlingError>)
        requires
            old(self).wf(),
            tc.wf(),
            old(self).psb.takes_stamp(time_stamp@),
        ensures
            Self::handled(old(self), final(self), tc, token, time_stamp@, r),
    {
        let subservice = tc.subservice();
        if subservice == TC_ENABLE_SCHEDULING || subservice == TC_DISABLE_SCHEDULING || subservice
            == TC_RESET_SCHEDULING {
            self.handle_switch(subservice, token, time_stamp)
        } else if subservice == TC_INSERT_ACTIVITY {
            self.handle_insert_activity(tc, token, time_stamp)
        } else {
            Ok(PusPacketHandlerResult::CustomSubservice(subservice, TcStateToken::Accepted(token)))
        }
    }

    /// The handler is as `before`, but for the time stamp of its base, which
    /// is `time_stamp`.
    pub open spec fn stamped(before: &Self, after: &Self, time_stamp: Seq<u8>) -> bool {
        &&& after.psb.stamp_buf@ == time_stamp
        &&& after.psb.tc_receiver == before.psb.tc_receiver
        &&& after.psb.tm_sender == before.psb.tm_sender
        &&& after.psb.tm_apid == before.psb.tm_apid
        &&& after.psb.verification_handler == before.psb.verification_handler
        &&& after.psb.pus_buf == before.psb.pus_buf
        &&& after.psb.pus_size == before.psb.pus_size
        &&& after.psb.order == before.psb.order
        &&& after.scheduler == before.scheduler
        &&& after.tc_pool == before.tc_pool
    }

    /// What the handling of a telecommand with the time of the clock as time
    /// stamp leaves behind and returns: the time stamp of the base is set, as
    /// the clock gives it or to zeroes where the time could not be had; from
    /// there the telecommand is handled as [`Self::handled`] says for that time
    /// stamp; and the result is as [`crate::pus_service::result_with_time`] says.
    pub open spec fn handled_now(
        before: &Self,
        after: &Self,
        tc: &PusTc,
        token: VerificationToken<StateAccepted>,
        r: Result<PusPacketHandlerResult, PusPacketHandlingError>,
    ) -> bool {
        exists|
            mid: Self,
            time_stamp: Seq<u8>,
            time_error: bool,
            inner: Result<PusPacketHandlerResult, PusPacketHandlingError>,
        |
            crate::pus_service::stamp_from_clock(time_stamp, time_error) && Self::stamped(
                before,
                &mid,
                time_stamp,
            ) && #[trigger] Self::handled(&mid, after, tc, token, time_stamp, inner)
                && #[trigger] crate::pus_service::result_with_time(inner, time_error, r)
    }

    /// Handles a telecommand of service 11 with the current time as time
    /// stamp, see [`Self::handled_now`].
    pub fn handle_one_tc(&mut self, tc: &PusTc, token: VerificationToken<StateAccepted>) -> (r: Result<
        PusPacketHandlerResult,
        PusPacketHandlingError,
    >)
        requires
            old(self).wf(),
            tc.wf(),
        ensures
            final(self).wf(),
            Self::handled_now(old(self), final(self), tc, token, r),
    {
        let time_error = self.psb.update_stamp().err();
        let stamp = self.psb.stamp_buf;
        let ghost mid = *self;
        let inner = self.handle_one_tc_with_stamp(tc, token, &stamp);
        let ghost seen = inner;
        let r = match (inner, time_error) {
            (Ok(PusPacketHandlerResult::RequestHandled), Some(e)) => Ok(
                PusPacketHandlerResult::RequestHandledPartialSuccess(e),
            ),
            (r, _) => r,
        };
        proof {
            assert(Self::stamped(old(self), &mid, stamp@));
            assert(Self::handled(&mid, self, tc, token, stamp@, seen));
            assert(crate::pus_service::result_with_time(seen, time_error.is_some(), r));
        }
        r
    }

    /// The handler is as `before`, but for what an attempt to receive a
    /// telecommand changes, see [`PusServiceBase::only_received`].
    pub open spec fn only_received(before: &Self, after: &Self) -> bool {
        &&& PusServiceBase::only_received(&before.psb, &after.psb)
        &&& after.scheduler == before.scheduler
        &&& after.tc_pool == before.tc_pool
    }

    /// What [`Self::handle_next_packet`] leaves behind and returns. Where no
    /// telecommand was received, nothing was sent or scheduled and the result
    /// says that the queue is empty or why nothing could be received. Else the
    /// telecommand that was received was handled, see [`Self::handled_now`].
    pub open spec fn next_handled(
        before: &Self,
        after: &Self,
        r: Result<PusPacketHandlerResult, PusPacketHandlingError>,
    ) -> bool {
        ||| crate::pus_service::nothing_handled(r) && Self::only_received(before, after)
        ||| exists|mid: Self, tc: PusTc, token: VerificationToken<StateAccepted>|
            Self::only_received(before, &mid) && tc.wf() && #[trigger] Self::handled_now(
                &mid,
                after,
                &tc,
                token,
                r,
            )
    }

    /// Takes the next telecommand from the receiver, if there is one, and
    /// handles it, see [`Self::next_handled`].
    pub fn handle_next_packet(&mut self) -> (r: Result<PusPacketHandlerResult, PusPacketHandlingError>)
        requires
            old(self).wf(),
        ensures
            final(self).wf(),
            Self::next_handled(old(self), final(self), r),
    {
        let (tc, _addr, token) = match self.psb.retrieve_and_accept_next_packet() {
            Ok(Some(received)) => received,
            Ok(None) => {
                return Ok(PusPacketHandlerResult::Empty);
            },
            Err(e) => {
                return Err(e);
            },
        };
        let ghost mid = *self;
        let r = self.handle_one_tc(&tc, token);
        proof {
            assert(Self::handled_now(&mid, self, &tc, token, r));
        }
        r
    }

    /// Releases the telecommands that are due, see
    /// [`PusScheduler::release_telecommands_to`].
    pub fn release_tcs<T: crate::scheduling::TcReleaser>(&mut self, releaser: &mut T)
        requires
            old(self).wf(),
            old(releaser).ready(),
        ensures
            final(self).wf(),
            final(releaser).ready(),
            final(self).psb == old(self).psb,
            final(self).tc_pool == old(self).tc_pool,
            final(self).scheduler@ == (SchedulerModel {
                entries: crate::scheduling::later_entries(
                    old(self).scheduler@.entries,
                    old(self).scheduler@.current_time,
                ),
                ..old(self).scheduler@
            }),
            final(releaser).released() == old(releaser).released() + crate::scheduling::releases(
                old(self).scheduler@.enabled,
                crate::scheduling::due_addrs(
                    old(self).scheduler@.entries,
                    old(self).scheduler@.current_time,
                ),
            ),
    {
        self.scheduler.release_telecommands_to(releaser);
    }
}

} // verus!
