use std::collections::VecDeque;
use tmtc_core::ecss::{EcssEnumU16, EcssEnumU32, EcssEnumU8, EcssEnumeration};
use tmtc_core::spacepackets::{ByteConversionError, SpHeader};
use tmtc_core::tc::PusTc;
use tmtc_core::tm::PusTm;
use tmtc_core::verification::{
    FailParams, FailParamsWithStep, RequestId, StateNone, VerificationError,
    VerificationReporter, VerificationReporterCfg, VerificationReporterWithSender,
    VerificationSender, VerificationToken,
};

const TEST_APID: u16 = 0x02;
const EMPTY_STAMP: [u8; 7] = [0; 7];

#[derive(Debug, Eq, PartialEq)]
struct TmInfo {
    pub subservice: u8,
    pub apid: u16,
    pub msg_counter: u16,
    pub dest_id: u16,
    pub time_stamp: [u8; 7],
    pub req_id: RequestId,
    pub additional_data: Option<Vec<u8>>,
}

#[derive(Default)]
struct TestSender {
    pub service_queue: VecDeque<TmInfo>,
}

impl VerificationSender<()> for TestSender {
    fn send_verification_tm(&mut self, tm: PusTm) -> Result<(), VerificationError<()>> {
        assert_eq!(tm.service(), 1);
        assert!(tm.source_data().is_some());
        let mut time_stamp = [0; 7];
        time_stamp.clone_from_slice(&tm.time_stamp()[0..7]);
        let src_data = tm.source_data().unwrap();
        assert!(src_data.len() >= 4);
        let req_id = RequestId::from_bytes(&src_data[0..RequestId::SIZE_AS_BYTES]).unwrap();
        let mut vec = None;
        if src_data.len() > 4 {
            let mut new_vec = Vec::new();
            new_vec.extend_from_slice(&src_data[RequestId::SIZE_AS_BYTES..]);
            vec = Some(new_vec);
        }
        self.service_queue.push_back(TmInfo {
            subservice: tm.subservice(),
            apid: tm.apid(),
            msg_counter: tm.msg_counter(),
            dest_id: tm.dest_id(),
            time_stamp,
            req_id,
            additional_data: vec,
        });
        Ok(())
    }
}

#[derive(Debug, Copy, Clone, Eq, PartialEq)]
struct DummyError {}
#[derive(Default)]
struct FallibleSender {}

impl VerificationSender<DummyError> for FallibleSender {
    fn send_verification_tm(&mut self, _: PusTm) -> Result<(), VerificationError<DummyError>> {
        Err(VerificationError::SendError(DummyError {}))
    }
}

struct TestBase {
    vr: VerificationReporter,
    #[allow(dead_code)]
    tc: PusTc,
}

impl TestBase {
    fn rep(&mut self) -> &mut VerificationReporter {
        &mut self.vr
    }
}
struct TestBaseWithHelper {
    helper: VerificationReporterWithSender<(), TestSender>,
    #[allow(dead_code)]
    tc: PusTc,
}

impl TestBaseWithHelper {
    fn rep(&mut self) -> &mut VerificationReporter {
        &mut self.helper.reporter
    }
}

fn base_reporter() -> VerificationReporter {
    let cfg = VerificationReporterCfg::new(TEST_APID, 1, 2, 8);
    VerificationReporter::new(cfg)
}

fn base_tc_init(app_data: Option<&[u8]>) -> (PusTc, RequestId) {
    let mut sph = SpHeader::tc(TEST_APID, 0x34, 0).unwrap();
    let pus_tc = PusTc::new(&mut sph, 17, 1, app_data);
    let req_id = RequestId::new(&pus_tc);
    (pus_tc, req_id)
}

fn base_init(api_sel: bool) -> (TestBase, VerificationToken<StateNone>) {
    let mut reporter = base_reporter();
    let (tc, req_id) = base_tc_init(None);
    let init_tok;
    if api_sel {
        init_tok = reporter.add_tc_with_req_id(req_id);
    } else {
        init_tok = reporter.add_tc(&tc);
    }
    (TestBase { vr: reporter, tc }, init_tok)
}

fn base_with_helper_init() -> (TestBaseWithHelper, VerificationToken<StateNone>) {
    let mut reporter = base_reporter();
    let (tc, _) = base_tc_init(None);
    let init_tok = reporter.add_tc(&tc);
    let sender = TestSender::default();
    let helper = VerificationReporterWithSender::new_from_reporter(reporter, sender);
    (TestBaseWithHelper { helper, tc }, init_tok)
}

fn acceptance_check(sender: &mut TestSender, req_id: &RequestId) {
    let cmp_info = TmInfo {
        time_stamp: EMPTY_STAMP,
        subservice: 1,
        dest_id: 0,
        apid: TEST_APID,
        msg_counter: 0,
        additional_data: None,
        req_id: req_id.clone(),
    };
    assert_eq!(sender.service_queue.len(), 1);
    let info = sender.service_queue.pop_front().unwrap();
    assert_eq!(info, cmp_info);
}

#[test]
fn test_basic_acceptance_success() {
    let (mut b, tok) = base_init(false);
    let mut sender = TestSender::default();
    b.vr.acceptance_success(tok, &mut sender, &EMPTY_STAMP)
        .expect("Sending acceptance success failed");
    acceptance_check(&mut sender, &tok.req_id());
}

#[test]
fn test_basic_acceptance_success_with_helper() {
    let (mut b, tok) = base_with_helper_init();
    b.helper
        .acceptance_success(tok, &EMPTY_STAMP)
        .expect("Sending acceptance success failed");
    let sender: &mut TestSender = &mut b.helper.sender;
    acceptance_check(sender, &tok.req_id());
}

#[test]
fn test_acceptance_send_fails() {
    let (mut b, tok) = base_init(false);
    let mut faulty_sender = FallibleSender::default();
    let res =
        b.vr.acceptance_success(tok, &mut faulty_sender, &EMPTY_STAMP);
    assert!(res.is_err());
    let err = res.unwrap_err();
    assert_eq!(err.1, tok);
    match err.0 {
        VerificationError::SendError(e) => {
            assert_eq!(e, DummyError {})
        }
        _ => panic!("{}", format!("Unexpected error {:?}", err.0)),
    }
}

fn acceptance_fail_check(sender: &mut TestSender, req_id: RequestId, stamp_buf: [u8; 7]) {
    let cmp_info = TmInfo {
        time_stamp: stamp_buf,
        subservice: 2,
        dest_id: 5,
        apid: TEST_APID,
        msg_counter: 0,
        additional_data: Some([0, 2].to_vec()),
        req_id,
    };
    assert_eq!(sender.service_queue.len(), 1);
    let info = sender.service_queue.pop_front().unwrap();
    assert_eq!(info, cmp_info);
}

#[test]
fn test_basic_acceptance_failure() {
    let (mut b, tok) = base_init(true);
    b.rep().dest_id = 5;
    let stamp_buf = [1, 2, 3, 4, 5, 6, 7];
    let mut sender = TestSender::default();
    let fail_code = EcssEnumU16::new(2);
    let fail_params = FailParams::new(stamp_buf.as_slice(), &fail_code, None);
    b.vr.acceptance_failure(tok, &mut sender, fail_params)
        .expect("Sending acceptance success failed");
    acceptance_fail_check(&mut sender, tok.req_id(), stamp_buf);
}

#[test]
fn test_basic_acceptance_failure_with_helper() {
    let (mut b, tok) = base_with_helper_init();
    b.rep().dest_id = 5;
    let stamp_buf = [1, 2, 3, 4, 5, 6, 7];
    let fail_code = EcssEnumU16::new(2);
    let fail_params = FailParams::new(stamp_buf.as_slice(), &fail_code, None);
    b.helper
        .acceptance_failure(tok, fail_params)
        .expect("Sending acceptance success failed");
    let sender: &mut TestSender = &mut b.helper.sender;
    acceptance_fail_check(sender, tok.req_id(), stamp_buf);
}

#[test]
fn test_acceptance_fail_data_too_large() {
    let (mut b, tok) = base_with_helper_init();
    b.rep().dest_id = 5;
    let stamp_buf = [1, 2, 3, 4, 5, 6, 7];
    let fail_code = EcssEnumU16::new(2);
    let fail_data: [u8; 16] = [0; 16];
    // 4 req ID + 1 byte step + 2 byte error code + 8 byte fail data
    assert_eq!(b.rep().allowed_source_data_len(), 15);
    let fail_params =
        FailParams::new(stamp_buf.as_slice(), &fail_code, Some(fail_data.as_slice()));
    let res = b.helper.acceptance_failure(tok, fail_params);
    assert!(res.is_err());
    let err_with_token = res.unwrap_err();
    assert_eq!(err_with_token.1, tok);
    match err_with_token.0 {
        VerificationError::ByteConversionError(e) => match e {
            ByteConversionError::ToSliceTooSmall(missmatch) => {
                assert_eq!(
                    missmatch.expected,
                    fail_data.len() + RequestId::SIZE_AS_BYTES + fail_code.byte_width()
                );
                assert_eq!(missmatch.found, b.rep().allowed_source_data_len());
            }
            _ => {
                panic!("{}", format!("Unexpected error {:?}", e))
            }
        },
        _ => {
            panic!("{}", format!("Unexpected error {:?}", err_with_token.0))
        }
    }
}

#[test]
fn test_basic_acceptance_failure_with_fail_data() {
    let (mut b, tok) = base_init(false);
    let mut sender = TestSender::default();
    let fail_code = EcssEnumU8::new(10);
    let fail_data = EcssEnumU32::new(12);
    let mut fail_data_raw = [0; 4];
    fail_data.write_to_be_bytes(&mut fail_data_raw).unwrap();
    let fail_params = FailParams::new(&EMPTY_STAMP, &fail_code, Some(fail_data_raw.as_slice()));
    b.vr.acceptance_failure(tok, &mut sender, fail_params)
        .expect("Sending acceptance success failed");
    let cmp_info = TmInfo {
        time_stamp: EMPTY_STAMP,
        subservice: 2,
        dest_id: 0,
        apid: TEST_APID,
        msg_counter: 0,
        additional_data: Some([10, 0, 0, 0, 12].to_vec()),
        req_id: tok.req_id(),
    };
    assert_eq!(sender.service_queue.len(), 1);
    let info = sender.service_queue.pop_front().unwrap();
    assert_eq!(info, cmp_info);
}

fn start_fail_check(sender: &mut TestSender, req_id: RequestId, fail_data_raw: [u8; 4]) {
    assert_eq!(sender.service_queue.len(), 2);
    let mut cmp_info = TmInfo {
        time_stamp: EMPTY_STAMP,
        subservice: 1,
        dest_id: 0,
        apid: TEST_APID,
        msg_counter: 0,
        additional_data: None,
        req_id,
    };
    let mut info = sender.service_queue.pop_front().unwrap();
    assert_eq!(info, cmp_info);

    cmp_info = TmInfo {
        time_stamp: EMPTY_STAMP,
        subservice: 4,
        dest_id: 0,
        apid: TEST_APID,
        msg_counter: 1,
        additional_data: Some([&[22], fail_data_raw.as_slice()].concat().to_vec()),
        req_id,
    };
    info = sender.service_queue.pop_front().unwrap();
    assert_eq!(info, cmp_info);
}

#[test]
fn test_start_failure() {
    let (mut b, tok) = base_init(false);
    let mut sender = TestSender::default();
    let fail_code = EcssEnumU8::new(22);
    let fail_data: i32 = -12;
    let mut fail_data_raw = [0; 4];
    fail_data_raw.copy_from_slice(fail_data.to_be_bytes().as_slice());
    let fail_params = FailParams::new(&EMPTY_STAMP, &fail_code, Some(fail_data_raw.as_slice()));

    let accepted_token =
        b.vr.acceptance_success(tok, &mut sender, &EMPTY_STAMP)
            .expect("Sending acceptance success failed");
    let empty =
        b.vr.start_failure(accepted_token, &mut sender, fail_params)
            .expect("Start failure failure");
    assert_eq!(empty, ());
    start_fail_check(&mut sender, tok.req_id(), fail_data_raw);
}

#[test]
fn test_start_failure_with_helper() {
    let (mut b, tok) = base_with_helper_init();
    let fail_code = EcssEnumU8::new(22);
    let fail_data: i32 = -12;
    let mut fail_data_raw = [0; 4];
    fail_data_raw.copy_from_slice(fail_data.to_be_bytes().as_slice());
    let fail_params = FailParams::new(&EMPTY_STAMP, &fail_code, Some(fail_data_raw.as_slice()));

    let accepted_token = b
        .helper
        .acceptance_success(tok, &EMPTY_STAMP)
        .expect("Sending acceptance success failed");
    let empty = b
        .helper
        .start_failure(accepted_token, fail_params)
        .expect("Start failure failure");
    assert_eq!(empty, ());
    let sender: &mut TestSender = &mut b.helper.sender;
    start_fail_check(sender, tok.req_id(), fail_data_raw);
}

fn step_success_check(sender: &mut TestSender, req_id: RequestId) {
    let mut cmp_info = TmInfo {
        time_stamp: EMPTY_STAMP,
        subservice: 1,
        dest_id: 0,
        apid: TEST_APID,
        msg_counter: 0,
        additional_data: None,
        req_id,
    };
    let mut info = sender.service_queue.pop_front().unwrap();
    assert_eq!(info, cmp_info);
    cmp_info = TmInfo {
        time_stamp: [0, 1, 0, 1, 0, 1, 0],
        subservice: 3,
        dest_id: 0,
        apid: TEST_APID,
        msg_counter: 1,
        additional_data: None,
        req_id,
    };
    info = sender.service_queue.pop_front().unwrap();
    assert_eq!(info, cmp_info);
    cmp_info = TmInfo {
        time_stamp: EMPTY_STAMP,
        subservice: 5,
        dest_id: 0,
        apid: TEST_APID,
        msg_counter: 2,
        additional_data: Some([0].to_vec()),
        req_id,
    };
    info = sender.service_queue.pop_front().unwrap();
    assert_eq!(info, cmp_info);
    cmp_info = TmInfo {
        time_stamp: EMPTY_STAMP,
        subservice: 5,
        dest_id: 0,
        apid: TEST_APID,
        msg_counter: 3,
        additional_data: Some([1].to_vec()),
        req_id,
    };
    info = sender.service_queue.pop_front().unwrap();
    assert_eq!(info, cmp_info);
}

#[test]
fn test_steps_success() {
    let (mut b, tok) = base_init(false);
    let mut sender = TestSender::default();
    let accepted_token = b
        .rep()
        .acceptance_success(tok, &mut sender, &EMPTY_STAMP)
        .expect("Sending acceptance success failed");
    let started_token = b
        .rep()
        .start_success(accepted_token, &mut sender, &[0, 1, 0, 1, 0, 1, 0])
        .expect("Sending start success failed");
    let mut empty = b
        .rep()
        .step_success(
            &started_token,
            &mut sender,
            &EMPTY_STAMP,
            EcssEnumU8::new(0),
        )
        .expect("Sending step 0 success failed");
    assert_eq!(empty, ());
    empty =
        b.vr.step_success(
            &started_token,
            &mut sender,
            &EMPTY_STAMP,
            EcssEnumU8::new(1),
        )
        .expect("Sending step 1 success failed");
    assert_eq!(empty, ());
    assert_eq!(sender.service_queue.len(), 4);
    step_success_check(&mut sender, tok.req_id());
}

#[test]
fn test_steps_success_with_helper() {
    let (mut b, tok) = base_with_helper_init();
    let accepted_token = b
        .helper
        .acceptance_success(tok, &EMPTY_STAMP)
        .expect("Sending acceptance success failed");
    let started_token = b
        .helper
        .start_success(accepted_token, &[0, 1, 0, 1, 0, 1, 0])
        .expect("Sending start success failed");
    let mut empty = b
        .helper
        .step_success(&started_token, &EMPTY_STAMP, EcssEnumU8::new(0))
        .expect("Sending step 0 success failed");
    assert_eq!(empty, ());
    empty = b
        .helper
        .step_success(&started_token, &EMPTY_STAMP, EcssEnumU8::new(1))
        .expect("Sending step 1 success failed");
    assert_eq!(empty, ());
    let sender: &mut TestSender = &mut b.helper.sender;
    assert_eq!(sender.service_queue.len(), 4);
    step_success_check(sender, tok.req_id());
}

fn check_step_failure(sender: &mut TestSender, req_id: RequestId, fail_data_raw: [u8; 4]) {
    assert_eq!(sender.service_queue.len(), 4);
    let mut cmp_info = TmInfo {
        time_stamp: EMPTY_STAMP,
        subservice: 1,
        dest_id: 0,
        apid: TEST_APID,
        msg_counter: 0,
        additional_data: None,
        req_id,
    };
    let mut info = sender.service_queue.pop_front().unwrap();
    assert_eq!(info, cmp_info);

    cmp_info = TmInfo {
        time_stamp: [0, 1, 0, 1, 0, 1, 0],
        subservice: 3,
        dest_id: 0,
        apid: TEST_APID,
        msg_counter: 1,
        additional_data: None,
        req_id,
    };
    info = sender.service_queue.pop_front().unwrap();
    assert_eq!(info, cmp_info);

    cmp_info = TmInfo {
        time_stamp: EMPTY_STAMP,
        subservice: 5,
        dest_id: 0,
        apid: TEST_APID,
        msg_counter: 2,
        additional_data: Some([0].to_vec()),
        req_id,
    };
    info = sender.service_queue.pop_front().unwrap();
    assert_eq!(info, cmp_info);

    cmp_info = TmInfo {
        time_stamp: EMPTY_STAMP,
        subservice: 6,
        dest_id: 0,
        apid: TEST_APID,
        msg_counter: 3,
        additional_data: Some(
            [
                [1].as_slice(),
                &[0, 0, 0x10, 0x20],
                fail_data_raw.as_slice(),
            ]
            .concat()
            .to_vec(),
        ),
        req_id,
    };
    info = sender.service_queue.pop_front().unwrap();
    assert_eq!(info, cmp_info);
}

#[test]
fn test_step_failure() {
    let (mut b, tok) = base_init(false);
    let mut sender = TestSender::default();
    let req_id = tok.req_id();
    let fail_code = EcssEnumU32::new(0x1020);
    let fail_data: f32 = -22.3232;
    let mut fail_data_raw = [0; 4];
    fail_data_raw.copy_from_slice(fail_data.to_be_bytes().as_slice());
    let fail_step = EcssEnumU8::new(1);
    let fail_params = FailParamsWithStep::new(
        &EMPTY_STAMP,
        &fail_step,
        &fail_code,
        Some(fail_data_raw.as_slice()),
    );

    let accepted_token =
        b.vr.acceptance_success(tok, &mut sender, &EMPTY_STAMP)
            .expect("Sending acceptance success failed");
    let started_token =
        b.vr.start_success(accepted_token, &mut sender, &[0, 1, 0, 1, 0, 1, 0])
            .expect("Sending start success failed");
    let mut empty =
        b.vr.step_success(
            &started_token,
            &mut sender,
            &EMPTY_STAMP,
            EcssEnumU8::new(0),
        )
        .expect("Sending completion success failed");
    assert_eq!(empty, ());
    empty =
        b.vr.step_failure(started_token, &mut sender, fail_params)
            .expect("Step failure failed");
    assert_eq!(empty, ());
    check_step_failure(&mut sender, req_id, fail_data_raw);
}

#[test]
fn test_steps_failure_with_helper() {
    let (mut b, tok) = base_with_helper_init();
    let req_id = tok.req_id();
    let fail_code = EcssEnumU32::new(0x1020);
    let fail_data: f32 = -22.3232;
    let mut fail_data_raw = [0; 4];
    fail_data_raw.copy_from_slice(fail_data.to_be_bytes().as_slice());
    let fail_step = EcssEnumU8::new(1);
    let fail_params = FailParamsWithStep::new(
        &EMPTY_STAMP,
        &fail_step,
        &fail_code,
        Some(fail_data_raw.as_slice()),
    );

    let accepted_token = b
        .helper
        .acceptance_success(tok, &EMPTY_STAMP)
        .expect("Sending acceptance success failed");
    let started_token = b
        .helper
        .start_success(accepted_token, &[0, 1, 0, 1, 0, 1, 0])
        .expect("Sending start success failed");
    let mut empty = b
        .helper
        .step_success(&started_token, &EMPTY_STAMP, EcssEnumU8::new(0))
        .expect("Sending completion success failed");
    assert_eq!(empty, ());
    empty = b
        .helper
        .step_failure(started_token, fail_params)
        .expect("Step failure failed");
    assert_eq!(empty, ());
    let sender: &mut TestSender = &mut b.helper.sender;
    check_step_failure(sender, req_id, fail_data_raw);
}

fn completion_fail_check(sender: &mut TestSender, req_id: RequestId) {
    assert_eq!(sender.service_queue.len(), 3);

    let mut cmp_info = TmInfo {
        time_stamp: EMPTY_STAMP,
        subservice: 1,
        dest_id: 0,
        apid: TEST_APID,
        msg_counter: 0,
        additional_data: None,
        req_id,
    };
    let mut info = sender.service_queue.pop_front().unwrap();
    assert_eq!(info, cmp_info);

    cmp_info = TmInfo {
        time_stamp: [0, 1, 0, 1, 0, 1, 0],
        subservice: 3,
        dest_id: 0,
        apid: TEST_APID,
        msg_counter: 1,
        additional_data: None,
        req_id,
    };
    info = sender.service_queue.pop_front().unwrap();
    assert_eq!(info, cmp_info);

    cmp_info = TmInfo {
        time_stamp: EMPTY_STAMP,
        subservice: 8,
        dest_id: 0,
        apid: TEST_APID,
        msg_counter: 2,
        additional_data: Some([0, 0, 0x10, 0x20].to_vec()),
        req_id,
    };
    info = sender.service_queue.pop_front().unwrap();
    assert_eq!(info, cmp_info);
}

#[test]
fn test_completion_failure() {
    let (mut b, tok) = base_init(false);
    let mut sender = TestSender::default();
    let req_id = tok.req_id();
    let fail_code = EcssEnumU32::new(0x1020);
    let fail_params = FailParams::new(&EMPTY_STAMP, &fail_code, None);

    let accepted_token =
        b.vr.acceptance_success(tok, &mut sender, &EMPTY_STAMP)
            .expect("Sending acceptance success failed");
    let started_token =
        b.vr.start_success(accepted_token, &mut sender, &[0, 1, 0, 1, 0, 1, 0])
            .expect("Sending start success failed");
    let empty =
        b.vr.completion_failure(started_token, &mut sender, fail_params)
            .expect("Completion failure");
    assert_eq!(empty, ());
    completion_fail_check(&mut sender, req_id);
}

#[test]
fn test_completion_failure_with_helper() {
    let (mut b, tok) = base_with_helper_init();
    let req_id = tok.req_id();
    let fail_code = EcssEnumU32::new(0x1020);
    let fail_params = FailParams::new(&EMPTY_STAMP, &fail_code, None);

    let accepted_token = b
        .helper
        .acceptance_success(tok, &EMPTY_STAMP)
        .expect("Sending acceptance success failed");
    let started_token = b
        .helper
        .start_success(accepted_token, &[0, 1, 0, 1, 0, 1, 0])
        .expect("Sending start success failed");
    let empty = b
        .helper
        .completion_failure(started_token, fail_params)
        .expect("Completion failure");
    assert_eq!(empty, ());
    let sender: &mut TestSender = &mut b.helper.sender;
    completion_fail_check(sender, req_id);
}

fn completion_success_check(sender: &mut TestSender, req_id: RequestId) {
    assert_eq!(sender.service_queue.len(), 3);
    let cmp_info = TmInfo {
        time_stamp: EMPTY_STAMP,
        subservice: 1,
        dest_id: 0,
        apid: TEST_APID,
        msg_counter: 0,
        additional_data: None,
        req_id,
    };
    let mut info = sender.service_queue.pop_front().unwrap();
    assert_eq!(info, cmp_info);

    let cmp_info = TmInfo {
        time_stamp: [0, 1, 0, 1, 0, 1, 0],
        subservice: 3,
        dest_id: 0,
        apid: TEST_APID,
        msg_counter: 1,
        additional_data: None,
        req_id,
    };
    info = sender.service_queue.pop_front().unwrap();
    assert_eq!(info, cmp_info);
    let cmp_info = TmInfo {
        time_stamp: EMPTY_STAMP,
        subservice: 7,
        dest_id: 0,
        apid: TEST_APID,
        msg_counter: 2,
        additional_data: None,
        req_id,
    };
    info = sender.service_queue.pop_front().unwrap();
    assert_eq!(info, cmp_info);
}

#[test]
fn test_complete_success_sequence() {
    let (mut b, tok) = base_init(false);
    let mut sender = TestSender::default();
    let accepted_token =
        b.vr.acceptance_success(tok, &mut sender, &EMPTY_STAMP)
            .expect("Sending acceptance success failed");
    let started_token =
        b.vr.start_success(accepted_token, &mut sender, &[0, 1, 0, 1, 0, 1, 0])
            .expect("Sending start success failed");
    let empty =
        b.vr.completion_success(started_token, &mut sender, &EMPTY_STAMP)
            .expect("Sending completion success failed");
    assert_eq!(empty, ());
    completion_success_check(&mut sender, tok.req_id());
}

#[test]
fn test_complete_success_sequence_with_helper() {
    let (mut b, tok) = base_with_helper_init();
    let accepted_token = b
        .helper
        .acceptance_success(tok, &EMPTY_STAMP)
        .expect("Sending acceptance success failed");
    let started_token = b
        .helper
        .start_success(accepted_token, &[0, 1, 0, 1, 0, 1, 0])
        .expect("Sending start success failed");
    let empty = b
        .helper
        .completion_success(started_token, &EMPTY_STAMP)
        .expect("Sending completion success failed");
    assert_eq!(empty, ());
    let sender: &mut TestSender = &mut b.helper.sender;
    completion_success_check(sender, tok.req_id());
}
