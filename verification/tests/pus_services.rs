use std::cell::RefCell;
use std::rc::Rc;
use std::sync::mpsc;
use tmtc_core::event_man::{MpscEventSendProvider, SendEventProvider};
use tmtc_core::events::{EventU32, Severity};
use tmtc_core::index_map::IdTable;
use tmtc_core::params::Params;
use tmtc_core::pool::{LocalPool, PacketPoolCfg, PoolProvider, StoreAddr, StoreError};
use tmtc_core::pus::{
    EcssChannel, EcssTcReceiverCore, EcssTmSenderCore, EcssTmtcError, GenericRecvError,
    GenericSendError, PusTmWrapper, ReceivedTcWrapper,
};
use tmtc_core::pus_action::{Pus8Wrapper, PusService8ActionHandler};
use tmtc_core::pus_event_srv::PusService5EventHandler;
use tmtc_core::pus_hk::PusService3HkHandler;
use tmtc_core::pus_receiver::{
    route_for, CustomPusServiceId, MpscStoreAndSendError, PusReceiver, PusServiceId, PusTcArgs,
    PusTcMpscRouter, PusTmArgs, Route,
};
use tmtc_core::pus_scheduler_srv::PusService11SchedHandler;
use tmtc_core::pus_service::{
    PartialPusHandlingError, PusPacketHandlerResult, PusPacketHandlingError, PusServiceBase,
    PusServiceHandler,
};
use tmtc_core::pus_test::{
    create_test_service_dynamic, create_test_service_static, test_event, HandlingStatus,
    PusService17TestHandler, TestCustomServiceWrapper,
};
use tmtc_core::requests::{
    ActionRequest, EventRequest, HkRequest, MpscAcceptedTcSender, MpscEventRequestSender,
    MpscRequestSender, Request, RequestWithToken,
};
use tmtc_core::scheduling::PusScheduler;
use tmtc_core::senders::{MpscTcInStoreReceiver, MpscTmInStoreSender, SharedTmStore};
use tmtc_core::spacepackets::SpHeader;
use tmtc_core::tc::PusTc;
use tmtc_core::time::{TimeProvider, UnixTimestamp};
use tmtc_core::tm::PusTm;
use tmtc_core::verification::{
    RequestId, StateAccepted, TcStateToken, VerificationError, VerificationReporterCfg,
    VerificationReporterWithSender, VerificationSender, VerificationToken,
};

const TEST_APID: u16 = 0x101;
const STAMP: [u8; 7] = [1, 2, 3, 4, 5, 6, 7];

/// A pool that several parts of a test share.
#[derive(Clone)]
struct SharedPool(Rc<RefCell<LocalPool>>);

impl SharedPool {
    fn new(cfg: Vec<(u16, usize)>) -> Self {
        SharedPool(Rc::new(RefCell::new(LocalPool::new(&PacketPoolCfg::new(cfg)))))
    }

    fn read(&self, addr: &StoreAddr) -> Vec<u8> {
        self.0.borrow().pool().read(addr).unwrap().to_vec()
    }
}

impl PoolProvider for SharedPool {
    fn poisoned(&self) -> bool {
        false
    }

    fn add(&mut self, data: &[u8]) -> Result<StoreAddr, StoreError> {
        self.0.borrow_mut().add(data)
    }

    fn read_into(&mut self, addr: &StoreAddr, buf: &mut [u8]) -> Result<usize, StoreError> {
        self.0.borrow_mut().read_into(addr, buf)
    }

    fn overwrite(&mut self, addr: &StoreAddr, data: &[u8]) -> Result<(), StoreError> {
        self.0.borrow_mut().overwrite(addr, data)
    }

    fn delete(&mut self, addr: &StoreAddr) -> Result<(), StoreError> {
        self.0.borrow_mut().delete(addr)
    }
}

/// A sender that keeps what it was given; it can be told to fail.
#[derive(Default)]
struct Recorder {
    reports: Vec<PusTm>,
    telemetry: Vec<PusTm>,
    fail_reports_after: Option<usize>,
    fail_telemetry: bool,
}

impl VerificationSender<()> for Recorder {
    fn send_verification_tm(&mut self, tm: PusTm) -> Result<(), VerificationError<()>> {
        if let Some(limit) = self.fail_reports_after {
            if self.reports.len() >= limit {
                return Err(VerificationError::SendError(()));
            }
        }
        self.reports.push(tm);
        Ok(())
    }
}

#[derive(Default)]
struct TmRecorder {
    telemetry: Vec<PusTm>,
    fail: bool,
}

impl EcssChannel for TmRecorder {
    fn id(&self) -> u32 {
        7
    }
}

impl EcssTmSenderCore for TmRecorder {
    fn send_tm(&mut self, tm: PusTmWrapper) -> Result<(), EcssTmtcError> {
        if self.fail {
            return Err(EcssTmtcError::Send(GenericSendError::RxDisconnected));
        }
        match tm {
            PusTmWrapper::Direct(tm) => {
                self.telemetry.push(tm);
                Ok(())
            }
            PusTmWrapper::InStore(addr) => Err(EcssTmtcError::CantSendAddr(addr)),
        }
    }
}

/// A receiver that hands out the telecommands it was given.
#[derive(Default)]
struct TcFeeder {
    queue: Vec<(Vec<u8>, Option<TcStateToken>)>,
    closed: bool,
}

impl EcssChannel for TcFeeder {
    fn id(&self) -> u32 {
        8
    }

    fn name(&self) -> &'static str {
        "feeder"
    }
}

impl EcssTcReceiverCore for TcFeeder {
    fn recv_tc(&mut self, buf: &mut [u8]) -> Result<ReceivedTcWrapper, EcssTmtcError> {
        if self.queue.is_empty() {
            return Err(EcssTmtcError::Recv(if self.closed {
                GenericRecvError::TxDisconnected
            } else {
                GenericRecvError::Empty
            }));
        }
        let (raw, token) = self.queue.remove(0);
        buf[..raw.len()].copy_from_slice(&raw);
        let tc = PusTc::new_from_raw_slice(&buf[..raw.len()]).map_err(EcssTmtcError::Pus)?;
        Ok(ReceivedTcWrapper { addr: StoreAddr { pool_idx: 0, packet_idx: 0 }, tc, token })
    }
}

fn tc_bytes(service: u8, subservice: u8, app_data: Option<&[u8]>) -> (PusTc, Vec<u8>) {
    let mut sph = SpHeader::tc(TEST_APID, 0x34, 0).unwrap();
    let mut tc = PusTc::new(&mut sph, service, subservice, app_data);
    tc.update_packet_fields();
    let mut raw = Vec::new();
    tc.append_to_vec(&mut raw).unwrap();
    (tc, raw)
}

fn reporter(sender: Recorder) -> VerificationReporterWithSender<(), Recorder> {
    VerificationReporterWithSender::new(VerificationReporterCfg::new(TEST_APID, 1, 2, 8), sender)
}

/// An accepted token for `tc`, from a reporter of its own.
fn accepted(tc: &PusTc) -> VerificationToken<StateAccepted> {
    let mut r = reporter(Recorder::default());
    let token = r.add_tc(tc);
    r.acceptance_success(token, &STAMP).unwrap()
}

fn subservices(reports: &[PusTm]) -> Vec<u8> {
    reports.iter().map(|tm| tm.subservice()).collect()
}

#[test]
fn test_basic_ping_processing() {
    let mut pus_buf: [u8; 64] = [0; 64];
    let pool_cfg = vec![(16, 16), (8, 32), (4, 64)];
    let mut tc_pool_shared = SharedPool::new(pool_cfg.clone());
    let tm_pool_shared = SharedPool::new(pool_cfg);
    let (test_srv_tc_tx, test_srv_tc_rx) = mpsc::channel();
    let (tm_tx, tm_rx) = mpsc::channel();
    let verif_sender = MpscTmInStoreSender::new(
        0,
        "verif_sender",
        SharedTmStore::new(tm_pool_shared.clone()),
        tm_tx.clone(),
    );
    let verif_cfg = VerificationReporterCfg::new(TEST_APID, 1, 2, 8);
    let mut verification_handler = VerificationReporterWithSender::new(verif_cfg, verif_sender);
    let handler_verif_sender = MpscTmInStoreSender::new(
        0,
        "verif_sender",
        SharedTmStore::new(tm_pool_shared.clone()),
        tm_tx.clone(),
    );
    let handler_verification = VerificationReporterWithSender::new(
        VerificationReporterCfg::new(TEST_APID, 1, 2, 8),
        handler_verif_sender,
    );
    let test_srv_tm_sender = MpscTmInStoreSender::new(
        0,
        "TEST_SENDER",
        SharedTmStore::new(tm_pool_shared.clone()),
        tm_tx,
    );
    let test_srv_tc_receiver =
        MpscTcInStoreReceiver::new(0, "TEST_RECEIVER", tc_pool_shared.clone(), test_srv_tc_rx);
    let mut pus_17_handler = PusService17TestHandler::new(
        test_srv_tc_receiver,
        test_srv_tm_sender,
        TEST_APID,
        handler_verification,
    );
    // Create a ping TC, verify acceptance.
    let mut sp_header = SpHeader::tc(TEST_APID, 0, 0).unwrap();
    let mut ping_tc = PusTc::new(&mut sp_header, 17, 1, None);
    let token = verification_handler.add_tc(&ping_tc);
    let token = verification_handler.acceptance_success(token, &[]).unwrap();
    ping_tc.update_packet_fields();
    let tc_size = ping_tc.copy_to_buf(&mut pus_buf).unwrap();
    let addr = tc_pool_shared.add(&pus_buf[..tc_size]).unwrap();
    // Send accepted TC to test service handler.
    test_srv_tc_tx
        .send((addr, TcStateToken::Accepted(token)))
        .unwrap();
    let result = pus_17_handler.handle_one_tc();
    assert!(result.is_ok());
    // We should see 4 replies in the TM queue now: Acceptance TM, Start TM, ping reply and
    // Completion TM
    let mut next_msg = tm_rx.try_recv();
    assert!(next_msg.is_ok());
    let mut tm_addr = next_msg.unwrap();
    let tm_raw = tm_pool_shared.read(&tm_addr);
    let (tm, _) = PusTm::from_bytes(&tm_raw, 0).unwrap();
    assert_eq!(tm.service(), 1);
    assert_eq!(tm.subservice(), 1);
    let req_id =
        RequestId::from_bytes(tm.source_data().unwrap()).expect("generating request ID failed");
    assert_eq!(req_id, token.req_id());

    // Acceptance TM
    next_msg = tm_rx.try_recv();
    assert!(next_msg.is_ok());
    tm_addr = next_msg.unwrap();
    let tm_raw = tm_pool_shared.read(&tm_addr);
    // Is generated with CDS short timestamp.
    let (tm, _) = PusTm::from_bytes(&tm_raw, 7).unwrap();
    assert_eq!(tm.service(), 1);
    assert_eq!(tm.subservice(), 3);
    let req_id =
        RequestId::from_bytes(tm.source_data().unwrap()).expect("generating request ID failed");
    assert_eq!(req_id, token.req_id());

    // Ping reply
    next_msg = tm_rx.try_recv();
    assert!(next_msg.is_ok());
    tm_addr = next_msg.unwrap();
    let tm_raw = tm_pool_shared.read(&tm_addr);
    // Is generated with CDS short timestamp.
    let (tm, _) = PusTm::from_bytes(&tm_raw, 7).unwrap();
    assert_eq!(tm.service(), 17);
    assert_eq!(tm.subservice(), 2);
    assert!(tm.source_data().is_none());

    // TM completion
    next_msg = tm_rx.try_recv();
    assert!(next_msg.is_ok());
    tm_addr = next_msg.unwrap();
    let tm_raw = tm_pool_shared.read(&tm_addr);
    // Is generated with CDS short timestamp.
    let (tm, _) = PusTm::from_bytes(&tm_raw, 7).unwrap();
    assert_eq!(tm.service(), 1);
    assert_eq!(tm.subservice(), 7);
    let req_id =
        RequestId::from_bytes(tm.source_data().unwrap()).expect("generating request ID failed");
    assert_eq!(req_id, token.req_id());
    assert!(tm_rx.try_recv().is_err());
    assert!(matches!(pus_17_handler.handle_one_tc(), Ok(PusPacketHandlerResult::Empty)));
}

fn ping_handler(
    reports: Recorder,
    telemetry: TmRecorder,
) -> PusService17TestHandler<(), TcFeeder, TmRecorder, Recorder> {
    PusService17TestHandler::new(TcFeeder::default(), telemetry, TEST_APID, reporter(reports))
}

#[test]
fn ping_sequence_and_counters() {
    // Acceptance, start, ping reply and completion with the message counters 0, 1 and 2 of one
    // reporter and the request id of the telecommand.
    let mut sph = SpHeader::tc(0x02, 0x34, 0).unwrap();
    let tc = PusTc::new(&mut sph, 17, 1, None);
    let mut handler = ping_handler(Recorder::default(), TmRecorder::default());
    let init = handler.psb.verification_handler.add_tc(&tc);
    let token = handler.psb.verification_handler.acceptance_success(init, &STAMP).unwrap();
    let result = handler.handle_tc_with_stamp(&tc, token, &STAMP, None).unwrap();
    assert!(matches!(result, PusPacketHandlerResult::RequestHandled));
    let reports = &handler.psb.verification_handler.sender.reports;
    assert_eq!(subservices(reports), vec![1, 3, 7]);
    let expected_req_id: u32 = (0 << 29) | (0x1802 << 16) | 0xC034;
    for (count, tm) in reports.iter().enumerate() {
        assert_eq!(tm.msg_counter(), count as u16);
        assert_eq!(tm.apid(), TEST_APID);
        assert_eq!(tm.time_stamp(), &STAMP);
        assert_eq!(tm.source_data().unwrap(), expected_req_id.to_be_bytes().as_slice());
    }
    let telemetry = &handler.psb.tm_sender.telemetry;
    assert_eq!(telemetry.len(), 1);
    assert_eq!((telemetry[0].service(), telemetry[0].subservice()), (17, 2));
    assert_eq!(telemetry[0].time_stamp(), &STAMP);
    assert_eq!(telemetry[0].apid(), TEST_APID);
}

#[test]
fn ping_partial_failures() {
    let (tc, _) = tc_bytes(17, 1, None);
    let token = accepted(&tc);
    // The ping reply cannot be sent.
    let mut handler = ping_handler(Recorder::default(), TmRecorder { fail: true, ..Default::default() });
    let result = handler.handle_ping(token, &STAMP, None);
    assert!(matches!(
        result,
        PusPacketHandlerResult::RequestHandledPartialSuccess(PartialPusHandlingError::TmSend(_))
    ));
    assert_eq!(subservices(&handler.psb.verification_handler.sender.reports), vec![3, 7]);
    // The start cannot be reported: the reply goes out, the completion is not tried.
    let mut handler = ping_handler(
        Recorder { fail_reports_after: Some(0), ..Default::default() },
        TmRecorder::default(),
    );
    let result = handler.handle_ping(token, &STAMP, None);
    assert!(matches!(
        result,
        PusPacketHandlerResult::RequestHandledPartialSuccess(PartialPusHandlingError::Verification)
    ));
    assert!(handler.psb.verification_handler.sender.reports.is_empty());
    assert_eq!(handler.psb.tm_sender.telemetry.len(), 1);
    // The completion cannot be reported.
    let mut handler = ping_handler(
        Recorder { fail_reports_after: Some(1), ..Default::default() },
        TmRecorder::default(),
    );
    let result = handler.handle_ping(token, &STAMP, None);
    assert!(matches!(
        result,
        PusPacketHandlerResult::RequestHandledPartialSuccess(PartialPusHandlingError::Verification)
    ));
    assert_eq!(subservices(&handler.psb.verification_handler.sender.reports), vec![3]);
}

#[test]
fn test_service_other_cases() {
    let mut handler = ping_handler(Recorder::default(), TmRecorder::default());
    let (tc, _) = tc_bytes(5, 1, None);
    let token = accepted(&tc);
    assert!(matches!(
        handler.handle_tc_with_stamp(&tc, token, &STAMP, None),
        Err(PusPacketHandlingError::WrongService(5))
    ));
    let (tc, _) = tc_bytes(17, 130, None);
    let token = accepted(&tc);
    match handler.handle_tc_with_stamp(&tc, token, &STAMP, None).unwrap() {
        PusPacketHandlerResult::CustomSubservice(130, TcStateToken::Accepted(t)) => {
            assert_eq!(t, token)
        }
        other => panic!("unexpected result {:?}", other),
    }
    assert!(handler.psb.verification_handler.sender.reports.is_empty());
    // Through the receiver: an empty queue, a token in the wrong state, a closed queue.
    assert!(matches!(handler.handle_next_packet(), Ok(PusPacketHandlerResult::Empty)));
    let (tc, raw) = tc_bytes(17, 1, None);
    handler.psb.tc_receiver.queue.push((raw.clone(), None));
    assert!(matches!(
        handler.handle_next_packet(),
        Err(PusPacketHandlingError::InvalidVerificationToken)
    ));
    let mut r = reporter(Recorder::default());
    let init = r.add_tc(&tc);
    handler.psb.tc_receiver.queue.push((raw.clone(), Some(TcStateToken::Init(init))));
    assert!(matches!(
        handler.handle_one_tc(),
        Err(PusPacketHandlingError::InvalidVerificationToken)
    ));
    handler.psb.tc_receiver.queue.push((raw, Some(TcStateToken::Accepted(accepted(&tc)))));
    assert!(handler.handle_next_packet().is_ok());
    assert_eq!(subservices(&handler.psb.verification_handler.sender.reports), vec![3, 7]);
    handler.psb.tc_receiver.closed = true;
    assert!(matches!(handler.handle_one_tc(), Err(PusPacketHandlingError::QueueDisconnected)));
    assert_eq!(handler.psb().tm_apid, TEST_APID);
    handler.psb_mut().tm_apid = 5;
    assert_eq!(handler.psb.tm_apid, 5);
    assert_eq!(handler.psb.tc_receiver.name(), "feeder");
    assert_eq!(handler.psb.tm_sender.name(), "unset");
}

#[test]
fn custom_test_subservice_raises_event() {
    let (event_tx, event_rx) = mpsc::channel();
    let handler = ping_handler(Recorder::default(), TmRecorder::default());
    let mut wrapper = TestCustomServiceWrapper::new(handler, MpscEventSendProvider::new(3, event_tx));
    assert_eq!(wrapper.poll_and_handle_next_tc(&STAMP).unwrap(), HandlingStatus::Empty);
    let (tc, raw) = tc_bytes(17, 128, None);
    let token = accepted(&tc);
    wrapper.handler.psb.tc_receiver.queue.push((raw, Some(TcStateToken::Accepted(token))));
    assert_eq!(wrapper.poll_and_handle_next_tc(&STAMP).unwrap(), HandlingStatus::HandledOne);
    let (event, aux): (EventU32, Option<Params>) = event_rx.try_recv().unwrap();
    assert_eq!(event, test_event());
    assert_eq!(event, EventU32::new(Severity::INFO, 0, 0).unwrap());
    assert!(aux.is_none());
    assert_eq!(subservices(&wrapper.handler.psb.verification_handler.sender.reports), vec![3, 7]);
    // Another subservice is refused with the code for an invalid subservice and the subservice.
    let (tc, raw) = tc_bytes(17, 129, None);
    let token = accepted(&tc);
    wrapper.handler.psb.tc_receiver.queue.push((raw, Some(TcStateToken::Accepted(token))));
    assert_eq!(wrapper.poll_and_handle_next_tc(&STAMP).unwrap(), HandlingStatus::HandledOne);
    let reports = &wrapper.handler.psb.verification_handler.sender.reports;
    assert_eq!(subservices(reports), vec![3, 7, 4]);
    assert_eq!(&reports[2].source_data().unwrap()[4..], &[0, 1, 129]);
    // A ping is answered as by the handler itself.
    let (tc, raw) = tc_bytes(17, 1, None);
    wrapper.handler.psb.tc_receiver.queue.push((raw, Some(TcStateToken::Accepted(accepted(&tc)))));
    assert_eq!(wrapper.poll_and_handle_next_tc(&STAMP).unwrap(), HandlingStatus::HandledOne);
    assert_eq!(wrapper.handler.psb.tm_sender.telemetry.len(), 1);
    // With the listener for events gone, the request fails before anything is reported.
    drop(event_rx);
    let before = wrapper.handler.psb.verification_handler.sender.reports.len();
    assert!(wrapper.handle_custom_subservice(128, token, &STAMP).is_err());
    assert_eq!(wrapper.handler.psb.verification_handler.sender.reports.len(), before);
    assert_eq!(wrapper.test_srv_event_sender.id(), 3);
}

fn sched_handler(
    reports: Recorder,
) -> PusService11SchedHandler<(), TcFeeder, TmRecorder, Recorder, LocalPool> {
    PusService11SchedHandler::new(
        TcFeeder::default(),
        LocalPool::new(&PacketPoolCfg::new(vec![(4, 32), (2, 64)])),
        TmRecorder::default(),
        TEST_APID,
        reporter(reports),
        PusScheduler::new(UnixTimestamp::new_only_seconds(0), 10_000),
    )
}

fn insert_activity_data(release: &UnixTimestamp, wrapped: &[u8]) -> Vec<u8> {
    let mut data = vec![0u8; 7];
    TimeProvider::from_unix_stamp(release).unwrap().write_to_bytes(&mut data).unwrap();
    data.extend_from_slice(wrapped);
    data
}

#[test]
fn scheduler_service() {
    let mut handler = sched_handler(Recorder::default());
    let (tc, _) = tc_bytes(11, 2, None);
    let token = accepted(&tc);
    assert!(matches!(
        handler.handle_one_tc_with_stamp(&tc, token, &STAMP),
        Ok(PusPacketHandlerResult::RequestHandled)
    ));
    assert!(!handler.scheduler.is_enabled());
    let (tc, _) = tc_bytes(11, 1, None);
    assert!(handler.handle_one_tc_with_stamp(&tc, token, &STAMP).is_ok());
    assert!(handler.scheduler.is_enabled());
    assert_eq!(
        subservices(&handler.psb.verification_handler.sender.reports),
        vec![3, 7, 3, 7]
    );
    // Insert a ping for release at five seconds.
    let (_, ping_raw) = tc_bytes(17, 1, None);
    let release = UnixTimestamp::new_only_seconds(5);
    let data = insert_activity_data(&release, &ping_raw);
    let (tc, _) = tc_bytes(11, 4, Some(&data));
    assert!(matches!(
        handler.handle_one_tc_with_stamp(&tc, token, &STAMP),
        Ok(PusPacketHandlerResult::RequestHandled)
    ));
    assert_eq!(handler.scheduler.num_scheduled_telecommands(), 1);
    let addrs = handler.scheduler.scheduled_addrs();
    assert_eq!(addrs.len(), 1);
    assert_eq!(handler.tc_pool.pool().read(&addrs[0]).unwrap(), ping_raw.as_slice());
    // Too far ahead: the start is reported, then the failure of the completion.
    let late = insert_activity_data(&UnixTimestamp::new_only_seconds(11), &ping_raw);
    let (tc, _) = tc_bytes(11, 4, Some(&late));
    assert!(matches!(
        handler.handle_one_tc_with_stamp(&tc, token, &STAMP),
        Err(PusPacketHandlingError::InvalidAppData(_))
    ));
    // No release time at all.
    let (tc, _) = tc_bytes(11, 4, Some(&[1, 2, 3]));
    assert!(matches!(
        handler.handle_one_tc_with_stamp(&tc, token, &STAMP),
        Err(PusPacketHandlingError::NotEnoughAppData(_))
    ));
    // A telecommand that would schedule another one is refused.
    let nested = insert_activity_data(&release, &{
        let (_, raw) = tc_bytes(11, 4, Some(&data));
        raw
    });
    let (tc, _) = tc_bytes(11, 4, Some(&nested));
    assert!(handler.handle_one_tc_with_stamp(&tc, token, &STAMP).is_err());
    assert_eq!(handler.scheduler.num_scheduled_telecommands(), 1);
    let reports = &handler.psb.verification_handler.sender.reports;
    assert_eq!(subservices(reports), vec![3, 7, 3, 7, 3, 7, 3, 8, 3, 8, 3, 8]);
    assert_eq!(&reports[9].source_data().unwrap()[4..], &[0, 2]);
    assert_eq!(&reports[7].source_data().unwrap()[4..], &[0, 1]);
    // Reset gives the slot back and empties the scheduler.
    let (tc, _) = tc_bytes(11, 3, None);
    assert!(handler.handle_one_tc_with_stamp(&tc, token, &STAMP).is_ok());
    assert_eq!(handler.scheduler.num_scheduled_telecommands(), 0);
    assert!(!handler.scheduler.is_enabled());
    assert_eq!(handler.tc_pool.pool().has_element_at(&addrs[0]), Ok(false));
    // Another subservice goes back to the caller.
    let (tc, raw) = tc_bytes(11, 9, None);
    assert!(matches!(
        handler.handle_one_tc(&tc, token),
        Ok(PusPacketHandlerResult::CustomSubservice(9, _))
    ));
    handler.psb.tc_receiver.queue.push((raw, Some(TcStateToken::Accepted(token))));
    assert!(matches!(
        handler.handle_next_packet(),
        Ok(PusPacketHandlerResult::CustomSubservice(9, _))
    ));
    assert!(matches!(handler.handle_next_packet(), Ok(PusPacketHandlerResult::Empty)));
}

#[test]
fn scheduler_service_without_start_report() {
    let mut handler = sched_handler(Recorder { fail_reports_after: Some(0), ..Default::default() });
    let (tc, _) = tc_bytes(11, 2, None);
    let token = accepted(&tc);
    assert!(matches!(
        handler.handle_one_tc_with_stamp(&tc, token, &STAMP),
        Err(PusPacketHandlingError::Other(_))
    ));
    assert!(handler.scheduler.is_enabled());
    let mut handler = sched_handler(Recorder { fail_reports_after: Some(1), ..Default::default() });
    assert!(handler.handle_one_tc_with_stamp(&tc, token, &STAMP).is_err());
    assert!(!handler.scheduler.is_enabled());
}

struct Released(Vec<(bool, StoreAddr)>);

impl tmtc_core::scheduling::TcReleaser for Released {
    fn release(&mut self, enabled: bool, addr: &StoreAddr) {
        self.0.push((enabled, *addr));
    }
}

#[test]
fn scheduler_service_releases() {
    let mut handler = sched_handler(Recorder::default());
    let (_, ping_raw) = tc_bytes(17, 1, None);
    let data = insert_activity_data(&UnixTimestamp::new(3, 500).unwrap(), &ping_raw);
    let (tc, _) = tc_bytes(11, 4, Some(&data));
    let token = accepted(&tc);
    handler.handle_one_tc_with_stamp(&tc, token, &STAMP).unwrap();
    let mut released = Released(Vec::new());
    handler.scheduler.update_time(UnixTimestamp::new(3, 499).unwrap());
    handler.release_tcs(&mut released);
    assert!(released.0.is_empty());
    handler.scheduler.update_time(UnixTimestamp::new(3, 500).unwrap());
    handler.release_tcs(&mut released);
    assert_eq!(released.0, vec![(true, StoreAddr { pool_idx: 0, packet_idx: 0 })]);
    assert_eq!(handler.scheduler.num_scheduled_telecommands(), 0);
}

type ActionHandler = PusService8ActionHandler<(), TcFeeder, TmRecorder, Recorder, MpscRequestSender>;

fn action_handler() -> (ActionHandler, mpsc::Receiver<RequestWithToken>) {
    let (tx, rx) = mpsc::channel();
    let mut targets = IdTable::new();
    assert!(targets.insert(1, MpscRequestSender::new(tx)));
    assert!(targets.contains(1));
    assert_eq!(targets.len(), 1);
    (
        PusService8ActionHandler::new(
            TcFeeder::default(),
            TmRecorder::default(),
            TEST_APID,
            reporter(Recorder::default()),
            targets,
        ),
        rx,
    )
}

#[test]
fn action_service() {
    let (mut handler, rx) = action_handler();
    let (tc, raw) = tc_bytes(8, 128, Some(&[0, 0, 0, 1, 0, 0, 0, 9, 0xAA, 0xBB]));
    let token = accepted(&tc);
    assert!(matches!(
        handler.handle_one_tc_with_stamp(&tc, token, &STAMP),
        Ok(PusPacketHandlerResult::RequestHandled)
    ));
    let request = rx.try_recv().unwrap();
    assert_eq!(request.token, token);
    assert_eq!(request.targeted_request.target_id, 1);
    assert_eq!(
        request.targeted_request.request,
        Request::Action(ActionRequest::CmdWithU32Id(9, vec![0xAA, 0xBB]))
    );
    assert!(handler.psb.verification_handler.sender.reports.is_empty());
    // Unknown target, short data, unknown subservice.
    let (tc, _) = tc_bytes(8, 128, Some(&[0, 0, 0, 2, 0, 0, 0, 9]));
    match handler.handle_one_tc_with_stamp(&tc, token, &STAMP) {
        Err(PusPacketHandlingError::Other(message)) => assert_eq!(message, "Unknown target ID 2"),
        other => panic!("unexpected result {:?}", other),
    }
    let (tc, _) = tc_bytes(8, 128, Some(&[0, 0, 0, 1, 0, 0, 0]));
    assert!(matches!(
        handler.handle_one_tc_with_stamp(&tc, token, &STAMP),
        Err(PusPacketHandlingError::NotEnoughAppData(_))
    ));
    let (tc, _) = tc_bytes(8, 1, None);
    assert!(matches!(
        handler.handle_one_tc_with_stamp(&tc, token, &STAMP),
        Err(PusPacketHandlingError::InvalidSubservice(1))
    ));
    let reports = &handler.psb.verification_handler.sender.reports;
    assert_eq!(subservices(reports), vec![4, 4, 4]);
    assert_eq!(&reports[0].source_data().unwrap()[4..], &[0, 3, 0, 0, 0, 2]);
    assert_eq!(&reports[1].source_data().unwrap()[4..], &[0, 2]);
    assert_eq!(&reports[2].source_data().unwrap()[4..], &[0, 1, 1]);
    // Through the wrapper: one telecommand, then an empty queue.
    let mut wrapper = Pus8Wrapper { pus_8_handler: handler };
    wrapper.pus_8_handler.psb.tc_receiver.queue.push((raw, Some(TcStateToken::Accepted(token))));
    assert!(!wrapper.handle_next_packet());
    assert!(wrapper.handle_next_packet());
    assert_eq!(rx.try_recv().unwrap().targeted_request.target_id, 1);
    drop(rx);
    assert!(matches!(
        wrapper.pus_8_handler.handle_tc(&tc_bytes(8, 128, Some(&[0, 0, 0, 1, 0, 0, 0, 9])).0, token),
        Err(PusPacketHandlingError::Other(_))
    ));
}

#[test]
fn event_service() {
    let (tx, rx) = mpsc::channel();
    let mut handler: PusService5EventHandler<(), TcFeeder, TmRecorder, Recorder, _> =
        PusService5EventHandler::new(
            TcFeeder::default(),
            TmRecorder::default(),
            TEST_APID,
            reporter(Recorder::default()),
            MpscEventRequestSender::new(tx),
        );
    let event = EventU32::new(Severity::LOW, 2, 7).unwrap();
    let (tc, raw) = tc_bytes(5, 5, Some(&event.raw().to_be_bytes()));
    let token = accepted(&tc);
    assert!(matches!(
        handler.handle_one_tc_with_stamp(&tc, token, &STAMP),
        Ok(PusPacketHandlerResult::RequestHandled)
    ));
    let request = rx.try_recv().unwrap();
    assert_eq!(request.request, EventRequest::Enable(event));
    assert_eq!(request.token.req_id(), token.req_id());
    let (tc, _) = tc_bytes(5, 6, Some(&event.raw().to_be_bytes()));
    handler.handle_one_tc_with_stamp(&tc, token, &STAMP).unwrap();
    assert_eq!(rx.try_recv().unwrap().request, EventRequest::Disable(event));
    let (tc, _) = tc_bytes(5, 7, Some(&event.raw().to_be_bytes()));
    assert!(matches!(
        handler.handle_one_tc_with_stamp(&tc, token, &STAMP),
        Err(PusPacketHandlingError::InvalidSubservice(7))
    ));
    let (tc, _) = tc_bytes(5, 5, Some(&[1, 2, 3]));
    assert!(matches!(
        handler.handle_one_tc_with_stamp(&tc, token, &STAMP),
        Err(PusPacketHandlingError::NotEnoughAppData(_))
    ));
    assert_eq!(subservices(&handler.psb.verification_handler.sender.reports), vec![3, 3, 4, 4]);
    handler.psb.tc_receiver.queue.push((raw, Some(TcStateToken::Accepted(token))));
    assert!(handler.handle_next_packet().is_ok());
    assert!(matches!(handler.handle_next_packet(), Ok(PusPacketHandlerResult::Empty)));
}

#[test]
fn hk_service() {
    let (tx, rx) = mpsc::channel();
    let mut targets = IdTable::new();
    targets.insert(1, MpscRequestSender::new(tx));
    let mut handler: PusService3HkHandler<(), TcFeeder, TmRecorder, Recorder, _> =
        PusService3HkHandler::new(
            TcFeeder::default(),
            TmRecorder::default(),
            TEST_APID,
            reporter(Recorder::default()),
            targets,
        );
    let id = [0, 0, 0, 1, 0, 0, 0, 5];
    let cases: [(u8, Vec<u8>, HkRequest); 4] = [
        (5, id.to_vec(), HkRequest::Enable(5)),
        (6, id.to_vec(), HkRequest::Disable(5)),
        (27, id.to_vec(), HkRequest::OneShot(5)),
        (31, [id.as_slice(), &[0, 0, 0, 4]].concat(), HkRequest::ModifyCollectionInterval(5, 4)),
    ];
    let token = accepted(&tc_bytes(3, 5, None).0);
    for (subservice, data, expected) in cases {
        let (tc, _) = tc_bytes(3, subservice, Some(&data));
        assert!(handler.handle_one_tc_with_stamp(&tc, token, &STAMP).is_ok());
        let request = rx.try_recv().unwrap();
        assert_eq!(request.targeted_request.request, Request::HkRequest(expected));
        assert_eq!(request.targeted_request.target_id, 1);
    }
    let refused: [(u8, Option<&[u8]>, [u8; 2]); 6] = [
        (5, None, [0, 2]),
        (5, Some(&[0, 0, 0]), [1, 0]),
        (5, Some(&[0, 0, 0, 1, 0]), [1, 1]),
        (5, Some(&[0, 0, 0, 2, 0, 0, 0, 5]), [1, 2]),
        (31, Some(&id), [1, 3]),
        (9, Some(&id), [0, 1]),
    ];
    for (k, (subservice, data, code)) in refused.into_iter().enumerate() {
        let (tc, _) = tc_bytes(3, subservice, data);
        assert!(handler.handle_one_tc_with_stamp(&tc, token, &STAMP).is_err());
        let report = &handler.psb.verification_handler.sender.reports[k];
        assert_eq!(report.subservice(), 4);
        assert_eq!(&report.source_data().unwrap()[4..], &code);
    }
    assert!(rx.try_recv().is_err());
    assert!(matches!(handler.handle_next_packet(), Ok(PusPacketHandlerResult::Empty)));
}

type Distributor = PusReceiver<(), Recorder, MpscAcceptedTcSender, MpscEventSendProvider<EventU32>>;

#[test]
fn distributor_routes_by_service() {
    let channels: Vec<_> = (0..5).map(|_| mpsc::channel()).collect();
    let mut senders: Vec<_> =
        channels.iter().map(|(tx, _)| MpscAcceptedTcSender::new(tx.clone())).collect();
    let (event_tx, _event_rx) = mpsc::channel();
    let router = PusTcMpscRouter {
        action_service_receiver: senders.pop().unwrap(),
        hk_service_receiver: senders.pop().unwrap(),
        sched_service_receiver: senders.pop().unwrap(),
        event_service_receiver: senders.pop().unwrap(),
        test_service_receiver: senders.pop().unwrap(),
    };
    let mut receiver: Distributor = PusReceiver::new(
        TEST_APID,
        PusTmArgs { verif_reporter: reporter(Recorder::default()) },
        PusTcArgs { pus_router: router, event_sender: MpscEventSendProvider::new(0, event_tx) },
    );
    let addr = StoreAddr { pool_idx: 1, packet_idx: 2 };
    // Test, event, scheduling, housekeeping and action go to their handlers.
    for (k, service) in [17u8, 5, 11, 3, 8].into_iter().enumerate() {
        let (tc, _) = tc_bytes(service, 1, None);
        assert_eq!(receiver.handle_tc_packet_with_stamp(addr, service, &tc, &STAMP), Ok(()));
        let (got_addr, token) = channels[k].1.try_recv().unwrap();
        assert_eq!(got_addr, addr);
        assert_eq!(token.req_id(), RequestId::new(&tc));
        for (_, rx) in channels.iter() {
            assert!(rx.try_recv().is_err());
        }
    }
    assert_eq!(subservices(&receiver.tm_args.verif_reporter.sender.reports), vec![1; 5]);
    // A service of the standard without handler, and a number that is no service.
    let (tc, _) = tc_bytes(2, 1, None);
    // Their refusal is reported, and the distributor goes on.
    assert_eq!(receiver.handle_tc_packet_with_stamp(addr, 2, &tc, &STAMP), Ok(()));
    assert_eq!(receiver.handle_tc_packet_with_stamp(addr, 99, &tc, &STAMP), Ok(()));
    // The services of the mission are accepted and go nowhere.
    assert_eq!(receiver.handle_tc_packet_with_stamp(addr, 200, &tc, &STAMP), Ok(()));
    let reports = &receiver.tm_args.verif_reporter.sender.reports;
    assert_eq!(subservices(&reports[5..]), vec![2, 2, 1]);
    assert_eq!(&reports[5].source_data().unwrap()[4..], &[0, 4, 2]);
    assert_eq!(&reports[6].source_data().unwrap()[4..], &[0, 4, 99]);
    // With the current time as time stamp.
    let (tc, _) = tc_bytes(17, 1, None);
    assert_eq!(receiver.handle_tc_packet(addr, 17, &tc), Ok(()));
    assert_eq!(receiver.tm_args.verif_reporter.sender.reports[8].time_stamp()[0], 0x40);
    assert_eq!(channels[0].1.try_recv().unwrap().0, addr);
    // A handler that has gone away.
    drop(channels);
    assert_eq!(
        receiver.handle_tc_packet_with_stamp(addr, 17, &tc, &STAMP),
        Err(MpscStoreAndSendError::TcSendError(GenericSendError::RxDisconnected))
    );
    assert_eq!(route_for(17), Route::Handler(PusServiceId::Test));
    assert_eq!(route_for(1), Route::NotImplemented(1));
    assert_eq!(route_for(7), Route::Unknown(7));
    assert_eq!(route_for(201), Route::Custom(CustomPusServiceId::Health));
    assert_eq!(route_for(24), Route::Unknown(24));
}

#[test]
fn service_base_time_stamps() {
    let mut error = None;
    let stamp = PusServiceBase::<(), TcFeeder, TmRecorder, Recorder>::get_current_timestamp(&mut error);
    assert!(error.is_none());
    assert_eq!(stamp[0], 0x40);
    let again =
        PusServiceBase::<(), TcFeeder, TmRecorder, Recorder>::get_current_timestamp_ignore_error();
    assert_eq!(again[0], 0x40);
    let mut base = PusServiceBase::new(
        TcFeeder::default(),
        TmRecorder::default(),
        TEST_APID,
        reporter(Recorder::default()),
    );
    assert_eq!(base.stamp_buf, [0; 7]);
    assert_eq!(base.pus_buf.len(), 2048);
    assert!(base.update_stamp().is_ok());
    assert_eq!(base.stamp_buf[0], 0x40);
    let result = base.handle_next_packet(|_, _| Ok(PusPacketHandlerResult::RequestHandled));
    assert!(matches!(result, Ok(PusPacketHandlerResult::Empty)));
    let (tc, raw) = tc_bytes(17, 1, None);
    base.tc_receiver.queue.push((raw, Some(TcStateToken::Accepted(accepted(&tc)))));
    let result = base.handle_next_packet(|addr, _| {
        assert_eq!(addr, StoreAddr { pool_idx: 0, packet_idx: 0 });
        Ok(PusPacketHandlerResult::RequestHandled)
    });
    assert!(matches!(result, Ok(PusPacketHandlerResult::RequestHandled)));
    assert!(matches!(
        PusPacketHandlerResult::from_partial_error(PartialPusHandlingError::Verification),
        PusPacketHandlerResult::RequestHandledPartialSuccess(PartialPusHandlingError::Verification)
    ));
}

#[test]
fn test_service_factories() {
    let tc_pool = SharedPool::new(vec![(4, 32)]);
    let (ping, raw) = tc_bytes(17, 1, None);
    let token = TcStateToken::Accepted(accepted(&ping));
    let req_id = RequestId::new(&ping);

    // Telemetry as bytes.
    let (tm_tx, tm_rx) = mpsc::channel();
    let (verif_tx, verif_rx) = mpsc::channel();
    let (event_tx, event_rx) = mpsc::channel();
    let (tc_tx, tc_rx) = mpsc::channel();
    let mut service = create_test_service_dynamic(
        TEST_APID,
        tm_tx,
        verif_tx,
        tc_pool.clone(),
        MpscEventSendProvider::new(1, event_tx),
        tc_rx,
    );
    assert!(matches!(service.poll_and_handle_next_tc(&STAMP), Ok(HandlingStatus::Empty)));
    let addr = tc_pool.clone().add(&raw).unwrap();
    tc_tx.send((addr, token)).unwrap();
    assert!(matches!(service.poll_and_handle_next_tc(&STAMP), Ok(HandlingStatus::HandledOne)));
    let reports: Vec<Vec<u8>> = verif_rx.try_iter().collect();
    assert_eq!(reports.len(), 2);
    for (k, (raw_report, subservice)) in reports.iter().zip([3u8, 7]).enumerate() {
        let (tm, _) = PusTm::from_bytes(raw_report, 7).unwrap();
        assert_eq!((tm.service(), tm.subservice(), tm.apid()), (1, subservice, TEST_APID));
        assert_eq!(tm.msg_counter(), k as u16);
        assert_eq!(tm.time_stamp(), &STAMP);
        let mut expected = [0u8; 4];
        req_id.to_bytes(&mut expected);
        assert_eq!(tm.source_data().unwrap(), &expected);
    }
    let replies: Vec<Vec<u8>> = tm_rx.try_iter().collect();
    assert_eq!(replies.len(), 1);
    let (reply, _) = PusTm::from_bytes(&replies[0], 7).unwrap();
    assert_eq!((reply.service(), reply.subservice(), reply.apid()), (17, 2, TEST_APID));
    assert!(event_rx.try_recv().is_err());
    let (custom, raw) = tc_bytes(17, 128, None);
    let addr = tc_pool.clone().add(&raw).unwrap();
    tc_tx.send((addr, TcStateToken::Accepted(accepted(&custom)))).unwrap();
    assert!(matches!(service.poll_and_handle_next_tc(&STAMP), Ok(HandlingStatus::HandledOne)));
    assert_eq!(event_rx.try_recv().unwrap().0, test_event());
    assert_eq!(verif_rx.try_iter().count(), 2);

    // Telemetry in a store.
    let tm_pool = SharedPool::new(vec![(8, 64)]);
    let (tm_tx, tm_rx) = mpsc::channel();
    let (verif_tx, verif_rx) = mpsc::channel();
    let (event_tx, _event_rx) = mpsc::channel();
    let (tc_tx, tc_rx) = mpsc::channel();
    let mut service = create_test_service_static(
        TEST_APID,
        MpscTmInStoreSender::new(17, "tm", SharedTmStore::new(tm_pool.clone()), tm_tx),
        MpscTmInStoreSender::new(17, "verif", SharedTmStore::new(tm_pool.clone()), verif_tx),
        tc_pool.clone(),
        MpscEventSendProvider::new(1, event_tx),
        tc_rx,
    );
    let (ping, raw) = tc_bytes(17, 1, None);
    let addr = tc_pool.clone().add(&raw).unwrap();
    tc_tx.send((addr, TcStateToken::Accepted(accepted(&ping)))).unwrap();
    assert!(matches!(service.poll_and_handle_next_tc(&STAMP), Ok(HandlingStatus::HandledOne)));
    let reports: Vec<StoreAddr> = verif_rx.try_iter().collect();
    let sent: Vec<u8> = reports
        .iter()
        .map(|addr| PusTm::from_bytes(&tm_pool.read(addr), 7).unwrap().0.subservice())
        .collect();
    assert_eq!(sent, vec![3, 7]);
    let reply = tm_rx.try_recv().unwrap();
    assert_eq!(PusTm::from_bytes(&tm_pool.read(&reply), 7).unwrap().0.subservice(), 2);
    // The reply was stored between the two reports.
    assert_eq!(
        (reports[0].packet_idx, reply.packet_idx, reports[1].packet_idx),
        (0, 1, 2)
    );
}

#[test]
fn test_service_handles_a_given_tc() {
    // A ping that is handed over is answered with the time of the clock.
    let mut handler = ping_handler(Recorder::default(), TmRecorder::default());
    let (ping, _) = tc_bytes(17, 1, None);
    let result = handler.handle_tc_now(&ping, accepted(&ping)).unwrap();
    assert!(matches!(result, PusPacketHandlerResult::RequestHandled));
    assert_eq!(subservices(&handler.psb.verification_handler.sender.reports), vec![3, 7]);
    let reply = &handler.psb.tm_sender.telemetry[0];
    assert_eq!((reply.service(), reply.subservice()), (17, 2));
    assert_eq!(reply.time_stamp()[0], 0x40);
    assert_eq!(
        handler.psb.verification_handler.sender.reports[0].time_stamp(),
        reply.time_stamp()
    );
    let (other, _) = tc_bytes(3, 1, None);
    assert!(matches!(
        handler.handle_tc_now(&other, accepted(&other)),
        Err(PusPacketHandlingError::WrongService(3))
    ));

    let (event_tx, event_rx) = mpsc::channel();
    let mut wrapper = TestCustomServiceWrapper::new(
        ping_handler(Recorder::default(), TmRecorder::default()),
        MpscEventSendProvider::new(3, event_tx),
    );
    assert_eq!(
        wrapper.handle_polled_tc(&ping, accepted(&ping), &STAMP).unwrap(),
        HandlingStatus::HandledOne
    );
    assert_eq!(wrapper.handler.psb.tm_sender.telemetry[0].time_stamp(), &STAMP);
    assert!(event_rx.try_recv().is_err());
    let (custom, _) = tc_bytes(17, 128, None);
    assert_eq!(
        wrapper.handle_polled_tc(&custom, accepted(&custom), &STAMP).unwrap(),
        HandlingStatus::HandledOne
    );
    assert_eq!(event_rx.try_recv().unwrap().0, test_event());
    assert!(matches!(
        wrapper.handle_polled_tc(&other, accepted(&other), &STAMP),
        Err(PusPacketHandlingError::WrongService(3))
    ));
    assert_eq!(subservices(&wrapper.handler.psb.verification_handler.sender.reports), vec![3, 7, 3, 7]);
}

#[test]
fn time_stamps_of_the_clock() {
    let mut partial_error = None;
    let code = TimeProvider::new_with_u16_days(4385, 3250);
    let stamp = PusServiceBase::<(), TcFeeder, TmRecorder, Recorder>::stamp_of_clock(
        Ok(code),
        &mut partial_error,
    );
    assert_eq!(stamp, [0x40, 0x11, 0x21, 0x00, 0x00, 0x0C, 0xB2]);
    assert!(partial_error.is_none());
    let refused = TimeProvider::from_clock(Ok(UnixTimestamp::new_only_seconds(-1)));
    let stamp = PusServiceBase::<(), TcFeeder, TmRecorder, Recorder>::stamp_of_clock(
        refused,
        &mut partial_error,
    );
    assert_eq!(stamp, [0; 7]);
    assert!(matches!(partial_error, Some(PartialPusHandlingError::Time(_))));
    assert_eq!(
        TimeProvider::from_clock(Ok(UnixTimestamp::new(86400 * 2 + 3, 250).unwrap())).unwrap(),
        code
    );
    assert_eq!(
        tmtc_core::time::unix_after_epoch(5, 999).unwrap(),
        UnixTimestamp::new(5, 999).unwrap()
    );
    assert!(tmtc_core::time::unix_after_epoch(u64::MAX, 0).is_err());
    assert_eq!(
        tmtc_core::time::unix_after_epoch(i64::MAX as u64, 0).unwrap().unix_seconds,
        i64::MAX
    );
}

/// What two senders have sent, in the order in which it was sent.
#[derive(Clone, Default)]
struct SharedLog(Rc<RefCell<Vec<(u8, u8)>>>);

struct OrderedReports(SharedLog);

impl VerificationSender<()> for OrderedReports {
    fn send_verification_tm(&mut self, tm: PusTm) -> Result<(), VerificationError<()>> {
        self.0 .0.borrow_mut().push((tm.service(), tm.subservice()));
        Ok(())
    }
}

struct OrderedTelemetry(SharedLog);

impl EcssChannel for OrderedTelemetry {
    fn id(&self) -> u32 {
        1
    }
}

impl EcssTmSenderCore for OrderedTelemetry {
    fn send_tm(&mut self, tm: PusTmWrapper) -> Result<(), EcssTmtcError> {
        if let PusTmWrapper::Direct(tm) = tm {
            self.0 .0.borrow_mut().push((tm.service(), tm.subservice()));
        }
        Ok(())
    }
}

#[test]
fn ping_is_answered_between_start_and_completion() {
    let log = SharedLog::default();
    let mut reporter = VerificationReporterWithSender::new(
        VerificationReporterCfg::new(TEST_APID, 1, 2, 8),
        OrderedReports(log.clone()),
    );
    let (ping, _) = tc_bytes(17, 1, None);
    let token = reporter.add_tc(&ping);
    let token = reporter.acceptance_success(token, &STAMP).unwrap();
    let mut handler = PusService17TestHandler::new(
        TcFeeder::default(),
        OrderedTelemetry(log.clone()),
        TEST_APID,
        reporter,
    );
    let result = handler.handle_ping(token, &STAMP, None);
    assert!(matches!(result, PusPacketHandlerResult::RequestHandled));
    assert_eq!(*log.0.borrow(), vec![(1, 1), (1, 3), (17, 2), (1, 7)]);
    // The base sends in the order in which it is asked.
    let (other, _) = tc_bytes(17, 1, None);
    let token = accepted(&other);
    assert!(handler.psb.send_telemetry(PusTmWrapper::Direct(test_reply())).is_ok());
    let started = handler.psb.report_start(token, &STAMP).unwrap();
    assert!(handler.psb.report_completion_failure(started, &STAMP, 3));
    assert_eq!(log.0.borrow()[4..], [(17, 2), (1, 3), (1, 8)]);
}

fn test_reply() -> PusTm {
    let mut sph = SpHeader::tm(TEST_APID, 0, 0).unwrap();
    PusTm::new(
        &mut sph,
        tmtc_core::tm::PusTmSecondaryHeader::new_simple(17, 2, &STAMP),
        None,
        true,
    )
}

/// A sender that counts how often it is asked and refuses where it is told so.
#[derive(Default)]
struct Asked {
    asked: u32,
    refuse: bool,
}

impl VerificationSender<u8> for Asked {
    fn send_verification_tm(&mut self, _tm: PusTm) -> Result<(), VerificationError<u8>> {
        self.asked += 1;
        if self.refuse {
            Err(VerificationError::SendError(3))
        } else {
            Ok(())
        }
    }
}

#[test]
fn reporter_asks_the_sender_exactly_for_what_fits() {
    let (tc, _) = tc_bytes(17, 1, None);
    // A buffer that holds the request id: reports of success fit, a step does not.
    let mut reporter = tmtc_core::verification::VerificationReporter::new(
        VerificationReporterCfg::new(TEST_APID, 0, 0, 0),
    );
    let mut sender = Asked::default();
    let token = reporter.add_tc(&tc);
    let token = reporter.acceptance_success(token, &mut sender, &STAMP).unwrap();
    let token = reporter.start_success(token, &mut sender, &STAMP).unwrap();
    assert_eq!(sender.asked, 2);
    let step = tmtc_core::ecss::EcssEnumU8::new(1);
    match reporter.step_success(&token, &mut sender, &STAMP, step) {
        Err(VerificationError::ByteConversionError(_)) => {}
        other => panic!("unexpected result {:?}", other),
    }
    // The sender was not asked, and nothing was counted.
    assert_eq!(sender.asked, 2);
    assert_eq!(reporter.msg_count, 2);
    // A sender that refuses is asked all the same, and its error comes back.
    sender.refuse = true;
    match reporter.completion_success(token, &mut sender, &STAMP) {
        Err(e) => assert!(matches!(e.0, VerificationError::SendError(3))),
        Ok(()) => panic!("the sender refused"),
    }
    assert_eq!(sender.asked, 3);
    assert_eq!(reporter.msg_count, 2);
    // What is done with the answer of the sender.
    assert!(reporter.count_sent::<u8>(Ok(())).is_ok());
    assert_eq!(reporter.msg_count, 3);
    assert!(matches!(
        reporter.count_sent::<u8>(Err(VerificationError::SendError(9))),
        Err(VerificationError::SendError(9))
    ));
    assert_eq!(reporter.msg_count, 3);
    reporter.msg_count = u16::MAX;
    assert!(reporter.count_sent::<u8>(Ok(())).is_ok());
    assert_eq!(reporter.msg_count, 0);
}

#[test]
fn scheduler_reset_frees_the_slots() {
    let mut handler = sched_handler(Recorder::default());
    let (_, ping_raw) = tc_bytes(17, 1, None);
    let mut waiting = Vec::new();
    for seconds in [3, 5, 5] {
        let data = insert_activity_data(&UnixTimestamp::new_only_seconds(seconds), &ping_raw);
        let (tc, _) = tc_bytes(11, 4, Some(&data));
        assert!(handler.handle_one_tc_with_stamp(&tc, accepted(&tc), &STAMP).is_ok());
        waiting = handler.scheduler.scheduled_addrs();
    }
    assert_eq!(waiting.len(), 3);
    for addr in &waiting {
        assert_eq!(handler.tc_pool.pool().has_element_at(addr), Ok(true));
    }
    let (reset, _) = tc_bytes(11, 3, None);
    assert!(matches!(
        handler.handle_one_tc_with_stamp(&reset, accepted(&reset), &STAMP),
        Ok(PusPacketHandlerResult::RequestHandled)
    ));
    assert_eq!(handler.scheduler.num_scheduled_telecommands(), 0);
    assert!(!handler.scheduler.is_enabled());
    for addr in &waiting {
        assert_eq!(handler.tc_pool.pool().has_element_at(addr), Ok(false));
    }
}

#[test]
fn request_id_keeps_to_its_widths() {
    let mut sph = SpHeader::tc(0x7FF, 0x3FFF, 0).unwrap();
    let tc = PusTc::new(&mut sph, 17, 1, None);
    let id = RequestId::new(&tc);
    assert_eq!(id.raw(), 0x1FFF_FFFF);
    // A header with fields out of range gives the request id of the bits that fit.
    let mut wide = tc.clone();
    wide.sph.version = 0x1F;
    wide.sph.packet_id.apid = 0xFFFF;
    wide.sph.psc.seq_count = 0xFFFF;
    let id = RequestId::new(&wide);
    assert_eq!(id.raw(), 0xFFFF_FFFF);
    let mut bytes = [0u8; 4];
    id.to_bytes(&mut bytes);
    assert_eq!(RequestId::from_bytes(&bytes), Some(id));
}
