use std::cell::RefCell;
use std::rc::Rc;
use std::sync::mpsc;
use tmtc_core::pool::{LocalPool, PacketPoolCfg, PoolProvider, StoreAddr, StoreError};
use tmtc_core::pus::{
    source_buffer_large_enough, EcssChannel, EcssTcReceiverCore, EcssTmSenderCore, EcssTmtcError,
    GenericRecvError, GenericSendError, PusTcWrapper, PusTmWrapper, TcAddrWithToken,
};
use tmtc_core::scheduling::{PusScheduler, ScheduleError};
use tmtc_core::senders::{
    CrossbeamVerifSender, MpscTcInStoreReceiver, MpscTmAsVecSender, MpscTmInStoreSender,
    SendBackend, SharedTmStore, StdSenderBase, StdVerifSender, StdVerifSenderError,
};
use tmtc_core::spacepackets::{PusError, SpHeader};
use tmtc_core::tc::PusTc;
use tmtc_core::time::{update_time, TimeProvider, TimeStampHelper, UnixTimestamp};
use tmtc_core::tm::{PusTm, PusTmSecondaryHeader};
use tmtc_core::tm_funnel::{AddrSender, MpscAddrSender, SeqCountProviderSimple, TmFunnel};
use tmtc_core::tm_helper::PusTmWithCdsShortHelper;
use tmtc_core::verification::{
    TcStateToken, TimestampError, VerificationError, VerificationReporterCfg,
    VerificationReporterWithSender, VerificationSender,
};

/// A pool handle that says that its lock was found poisoned.
struct Poisoned(LocalPool);

impl PoolProvider for Poisoned {
    fn poisoned(&self) -> bool {
        true
    }

    fn add(&mut self, data: &[u8]) -> Result<StoreAddr, StoreError> {
        self.0.add(data)
    }

    fn read_into(&mut self, addr: &StoreAddr, buf: &mut [u8]) -> Result<usize, StoreError> {
        self.0.read_into(addr, buf)
    }

    fn overwrite(&mut self, addr: &StoreAddr, data: &[u8]) -> Result<(), StoreError> {
        self.0.overwrite(addr, data)
    }

    fn delete(&mut self, addr: &StoreAddr) -> Result<(), StoreError> {
        self.0.delete(addr)
    }
}

fn pool() -> LocalPool {
    LocalPool::new(&PacketPoolCfg::new(vec![(2, 32), (1, 64)]))
}

fn small_pool() -> LocalPool {
    LocalPool::new(&PacketPoolCfg::new(vec![(2, 32)]))
}

fn large_pool() -> LocalPool {
    LocalPool::new(&PacketPoolCfg::new(vec![(4, 32), (1, 64)]))
}

fn test_tm(service: u8, seq_count: u16) -> PusTm {
    let mut sph = SpHeader::tm(0x7, seq_count, 0).unwrap();
    PusTm::new(&mut sph, PusTmSecondaryHeader::new(service, 1, 0x55, 0, &[0; 7]), Some(&[1, 2]), true)
}

#[test]
fn funnel_sets_counters_and_keeps_order() {
    let mut store = large_pool();
    let addrs: Vec<StoreAddr> = [17u8, 1, 17]
        .iter()
        .map(|service| store.add(&test_tm(*service, 0x100).to_vec()).unwrap())
        .collect();
    let (tx, rx) = mpsc::channel();
    let mut funnel = TmFunnel::new(0x02, MpscAddrSender::new(tx)).unwrap();
    assert!(TmFunnel::new(0x800, MpscAddrSender::new(mpsc::channel().0)).is_none());
    let mut buf = [0u8; 64];
    assert_eq!(funnel.handle_all(&mut store, &addrs, &mut buf), 3);
    // The addresses arrive in the order in which they were given, each once.
    let forwarded: Vec<StoreAddr> = rx.try_iter().collect();
    assert_eq!(forwarded, addrs);
    let expected = [(17u8, 0u16, 0u16), (1, 1, 0), (17, 2, 1)];
    for (addr, (service, seq_count, msg_count)) in addrs.iter().zip(expected) {
        let raw = store.pool().read(addr).unwrap();
        // The checksum fits, else the packet could not be read.
        let (tm, _) = PusTm::from_bytes(raw, 7).unwrap();
        assert_eq!(tm.service(), service);
        assert_eq!(tm.apid(), 0x02);
        assert_eq!(tm.sp_header.seq_count(), seq_count);
        assert_eq!(tm.msg_counter(), msg_count);
        assert_eq!(tm.source_data().unwrap(), &[1, 2]);
    }
    // An address without a packet stops the funnel; the addresses before it have passed.
    let free = StoreAddr { pool_idx: 1, packet_idx: 0 };
    assert_eq!(funnel.handle_all(&mut store, &[addrs[0], free, addrs[1]], &mut buf), 1);
    assert_eq!(rx.try_iter().collect::<Vec<_>>(), vec![addrs[0]]);
    assert_eq!(
        funnel.handle_addr(&mut store, free, &mut buf),
        Err(EcssTmtcError::Store(StoreError::DoubleFree(free)))
    );
    let junk = store.add(&[1, 2, 3]).unwrap();
    assert_eq!(
        funnel.handle_addr(&mut store, junk, &mut buf),
        Err(EcssTmtcError::Pus(PusError::RawDataTooShort(3)))
    );
    assert_eq!(funnel.restamp(&[0; 4]), Err(PusError::RawDataTooShort(4)));
    drop(rx);
    assert_eq!(
        funnel.handle_addr(&mut store, addrs[2], &mut buf),
        Err(EcssTmtcError::Send(GenericSendError::RxDisconnected))
    );
}

#[test]
fn sequence_count_wraps_at_14_bits() {
    let mut provider = SeqCountProviderSimple::new();
    assert_eq!(provider.get_and_increment(), 0);
    assert_eq!(provider.get(), 1);
    for _ in 1..0x3FFF {
        provider.increment();
    }
    assert_eq!(provider.get_and_increment(), 0x3FFF);
    assert_eq!(provider.get(), 0);
    let (tx, rx) = mpsc::channel();
    let mut sender = MpscAddrSender::new(tx);
    let addr = StoreAddr { pool_idx: 0, packet_idx: 0 };
    assert_eq!(sender.send_addr(addr), Ok(()));
    assert_eq!(rx.recv().unwrap(), addr);
}

#[test]
fn verification_senders_store_and_send() {
    let (tx, rx) = mpsc::channel();
    let mut sender = StdVerifSender::new(pool(), tx);
    let tm = test_tm(1, 0);
    let bytes = tm.to_vec();
    sender.send_verification_tm(tm.clone()).unwrap();
    assert_eq!(rx.try_recv().unwrap(), StoreAddr { pool_idx: 0, packet_idx: 0 });
    drop(rx);
    match sender.send_verification_tm(tm.clone()) {
        Err(VerificationError::SendError(StdVerifSenderError::RxDisconnected(addr))) => {
            assert_eq!(addr, StoreAddr { pool_idx: 0, packet_idx: 1 })
        }
        other => panic!("unexpected result {:?}", other),
    }
    let (tx, rx) = crossbeam_channel::unbounded();
    let mut sender = CrossbeamVerifSender::new(pool(), tx);
    sender.send_verification_tm(tm.clone()).unwrap();
    sender.send_verification_tm(tm.clone()).unwrap();
    sender.send_verification_tm(tm.clone()).unwrap();
    assert_eq!(rx.try_iter().count(), 3);
    assert!(matches!(
        sender.send_verification_tm(tm.clone()),
        Err(VerificationError::SendError(StdVerifSenderError::StoreError(StoreError::OutOfSlots(_))))
    ));
    // A poisoned lock is an error unless it is to be ignored.
    let (tx, rx) = mpsc::channel();
    let mut base = StdSenderBase::new(Poisoned(pool()), tx.clone());
    assert_eq!(base.store_and_send(tm.clone()), Err(StdVerifSenderError::PoisonError));
    base.ignore_poison_error = true;
    assert_eq!(base.store_and_send(tm.clone()), Ok(()));
    assert!(rx.try_recv().is_ok());
    let mut sender = StdVerifSender::new(Poisoned(pool()), tx);
    assert!(sender.send_verification_tm(tm.clone()).is_err());
    sender.set_ignore_poison_error(true);
    assert!(sender.send_verification_tm(tm).is_ok());
    let mut backend = mpsc::channel().0;
    assert_eq!(SendBackend::send(&mut backend, StoreAddr { pool_idx: 1, packet_idx: 2 }),
        Err(StoreAddr { pool_idx: 1, packet_idx: 2 }));
    assert_eq!(bytes.len(), 24);
}

#[test]
fn tm_senders() {
    let (tx, rx) = mpsc::channel();
    let mut sender = MpscTmInStoreSender::new(4, "in store", SharedTmStore::new(small_pool()), tx);
    assert_eq!((sender.id(), sender.name()), (4, "in store"));
    let tm = test_tm(17, 0);
    sender.send_tm(PusTmWrapper::from_tm(tm.clone())).unwrap();
    assert_eq!(rx.try_recv().unwrap(), StoreAddr { pool_idx: 0, packet_idx: 0 });
    let addr = StoreAddr { pool_idx: 5, packet_idx: 6 };
    sender.send_tm(PusTmWrapper::from_addr(addr)).unwrap();
    assert_eq!(rx.try_recv().unwrap(), addr);
    sender.send_direct_tm(tm.clone()).unwrap();
    assert_eq!(
        sender.send_tm(PusTmWrapper::Direct(test_tm(1, 0))),
        Err(EcssTmtcError::Store(StoreError::OutOfSlots(24)))
    );
    drop(rx);
    assert_eq!(
        sender.send_tm(PusTmWrapper::InStore(addr)),
        Err(EcssTmtcError::Send(GenericSendError::RxDisconnected))
    );
    let (tx, _rx) = mpsc::channel();
    let mut sender = MpscTmInStoreSender::new(4, "p", SharedTmStore::new(Poisoned(pool())), tx);
    assert_eq!(sender.send_direct_tm(tm.clone()), Err(EcssTmtcError::StoreLock));
    sender.ignore_poison_errors = true;
    assert_eq!(sender.send_direct_tm(tm.clone()), Ok(()));

    let (tx, rx) = mpsc::channel();
    let mut sender = MpscTmAsVecSender::new(9, "as vec", tx);
    assert_eq!((sender.id(), sender.name()), (9, "as vec"));
    sender.send_tm(PusTmWrapper::Direct(tm.clone())).unwrap();
    assert_eq!(rx.try_recv().unwrap(), tm.to_vec());
    assert_eq!(sender.send_tm(PusTmWrapper::InStore(addr)), Err(EcssTmtcError::CantSendAddr(addr)));
    // The senders of telemetry also send verification reports.
    let mut reporter =
        VerificationReporterWithSender::new(VerificationReporterCfg::new(2, 1, 2, 8), sender);
    let mut sph = SpHeader::tc(2, 1, 0).unwrap();
    let token = reporter.add_tc(&PusTc::new(&mut sph, 17, 1, None));
    reporter.acceptance_success(token, &[0; 7]).unwrap();
    let raw = rx.try_recv().unwrap();
    assert_eq!(PusTm::from_bytes(&raw, 7).unwrap().0.subservice(), 1);
    assert_eq!(EcssTmtcError::from_store_error(StoreError::OutOfSlots(1)).describe(), "store error");
    assert_eq!(EcssTmtcError::from_pus_error(PusError::NoRawData).describe(), "PUS error");
    assert_eq!(
        EcssTmtcError::from_send_error(GenericSendError::QueueFull(3)),
        EcssTmtcError::Send(GenericSendError::QueueFull(3))
    );
    assert_eq!(EcssTmtcError::from_recv_error(GenericRecvError::Empty).describe(), "recv error");
    assert_eq!(GenericSendError::RxDisconnected.describe(), "rx side has disconnected");
    assert_eq!(GenericRecvError::TxDisconnected.describe(), "tx side has disconnected");
    assert!(source_buffer_large_enough(4, 4).is_ok());
    assert!(matches!(source_buffer_large_enough(4, 5), Err(EcssTmtcError::Pus(_))));
}

#[test]
fn tc_receiver_reads_from_store() {
    let mut store = pool();
    let mut sph = SpHeader::tc(0x02, 0x34, 0).unwrap();
    let mut tc = PusTc::new(&mut sph, 17, 1, Some(&[5, 6]));
    tc.update_packet_fields();
    let mut raw = Vec::new();
    tc.append_to_vec(&mut raw).unwrap();
    let addr = store.add(&raw).unwrap();
    let junk = store.add(&[1, 2, 3, 4]).unwrap();
    let (tx, rx) = mpsc::channel::<TcAddrWithToken>();
    let mut receiver = MpscTcInStoreReceiver::new(1, "tc", store, rx);
    assert_eq!((receiver.id(), receiver.name()), (1, "tc"));
    let mut buf = [0u8; 64];
    assert_eq!(
        receiver.recv_tc(&mut buf).err().unwrap(),
        EcssTmtcError::Recv(GenericRecvError::Empty)
    );
    let mut reporter = tmtc_core::verification::VerificationReporter::new(
        VerificationReporterCfg::new(2, 1, 2, 8),
    );
    let token = TcStateToken::Init(reporter.add_tc(&tc));
    tx.send((addr, token)).unwrap();
    let received = receiver.recv_tc(&mut buf).unwrap();
    assert_eq!(received.addr, addr);
    for wrapped in [PusTcWrapper::PusTc(&received.tc), PusTcWrapper::StoreAddr(received.addr)] {
        match wrapped {
            PusTcWrapper::PusTc(tc) => assert_eq!(tc.service(), 17),
            PusTcWrapper::StoreAddr(at) => assert_eq!(at, addr),
        }
    }
    assert_eq!(received.token, Some(token));
    assert_eq!(received.tc.user_data(), Some([5, 6].as_slice()));
    assert_eq!(&buf[..raw.len()], raw.as_slice());
    tx.send((addr, token)).unwrap();
    let mut small = [0u8; 8];
    assert!(matches!(receiver.recv_tc(&mut small), Err(EcssTmtcError::Pus(PusError::ByteConversion(_)))));
    tx.send((junk, token)).unwrap();
    assert_eq!(
        receiver.recv_tc(&mut buf).err().unwrap(),
        EcssTmtcError::Pus(PusError::RawDataTooShort(4))
    );
    let free = StoreAddr { pool_idx: 1, packet_idx: 0 };
    tx.send((free, token)).unwrap();
    assert_eq!(
        receiver.recv_tc(&mut buf).err().unwrap(),
        EcssTmtcError::Store(StoreError::DoubleFree(free))
    );
    receiver.pool_mut().delete(&junk).unwrap();
    drop(tx);
    assert_eq!(
        receiver.recv_tc(&mut buf).err().unwrap(),
        EcssTmtcError::Recv(GenericRecvError::TxDisconnected)
    );
}

#[test]
fn time_codes() {
    let unix = UnixTimestamp::new(86400 * 2 + 3, 250).unwrap();
    let code = TimeProvider::from_unix_stamp(&unix).unwrap();
    assert_eq!(code, TimeProvider::new_with_u16_days(4385, 3250));
    assert_eq!(code.unix_stamp(), unix);
    let mut buf = [0xEEu8; 8];
    assert_eq!(code.write_to_bytes(&mut buf), Ok(7));
    assert_eq!(buf, [0x40, 0x11, 0x21, 0x00, 0x00, 0x0C, 0xB2, 0xEE]);
    assert_eq!(TimeProvider::from_bytes(&buf), Ok(code));
    buf[0] = 0x41;
    assert_eq!(TimeProvider::from_bytes(&buf), Err(TimestampError::InvalidTimeCode(0x41)));
    assert!(TimeProvider::from_bytes(&buf[..6]).is_err());
    assert!(code.write_to_bytes(&mut buf[..6]).is_err());
    assert!(TimeProvider::from_unix_stamp(&UnixTimestamp::new_only_seconds(-1)).is_err());
    assert!(TimeProvider::from_unix_stamp(&UnixTimestamp::new_only_seconds(86400 * 70000)).is_err());
    assert!(UnixTimestamp::new_only_seconds(5).not_after(&UnixTimestamp::new(5, 1).unwrap()));
    assert!(!UnixTimestamp::new(5, 2).unwrap().not_after(&UnixTimestamp::new(5, 1).unwrap()));
    assert!(UnixTimestamp::new(6, 1).unwrap().later_than_by(&UnixTimestamp::new_only_seconds(5), 1000));
    assert!(!UnixTimestamp::new_only_seconds(6).later_than_by(&UnixTimestamp::new_only_seconds(5), 1000));
    // The clock of the machine shows a time after 2020.
    let now = TimeProvider::from_now_with_u16_days().unwrap();
    assert!(now.ccsds_days > 22000);
    let mut provider = TimeProvider::new_with_u16_days(0, 0);
    let mut stamp = [0u8; 7];
    update_time(&mut provider, &mut stamp).unwrap();
    assert_eq!(stamp[0], 0x40);
    assert!(provider.ccsds_days > 22000);
    assert!(update_time(&mut provider, &mut stamp[..6]).is_err());
    let mut helper = TimeStampHelper::new();
    assert_eq!(helper.stamp(), &[0; 7]);
    helper.update_from_now().unwrap();
    assert_eq!(helper.stamp()[0], 0x40);
    assert!(tmtc_core::time::unix_now().unwrap().unix_seconds > 1_600_000_000);
}

#[test]
fn tm_helper_builds_unsegmented_tm() {
    let mut helper = PusTmWithCdsShortHelper::new(0x123);
    let stamper = TimeProvider::new_with_u16_days(1, 2);
    let tm = helper.create_pus_tm_with_stamper(17, 2, Some(&[9]), &stamper, 5).unwrap();
    assert_eq!((tm.service(), tm.subservice(), tm.apid()), (17, 2, 0x123));
    assert_eq!(tm.sp_header.seq_count(), 5);
    assert_eq!(tm.time_stamp(), &[0x40, 0, 1, 0, 0, 0, 2]);
    assert_eq!(tm.source_data().unwrap(), &[9]);
    assert!(helper.create_pus_tm_with_stamper(17, 2, None, &stamper, 0x4000).is_none());
    let tm = helper.create_pus_tm_timestamp_now(3, 25, None, 0).unwrap().unwrap();
    assert_eq!(tm.time_stamp()[0], 0x40);
    assert!(PusTmWithCdsShortHelper::new(0x800)
        .create_pus_tm_with_stamper(1, 1, None, &stamper, 0)
        .is_none());
}

#[test]
fn scheduler_takes_wrapped_tc() {
    let mut store = small_pool();
    let mut scheduler = PusScheduler::new(UnixTimestamp::new_only_seconds(100), 1000);
    let mut sph = SpHeader::tc(0x02, 1, 0).unwrap();
    let mut inner = PusTc::new(&mut sph, 17, 1, None);
    inner.update_packet_fields();
    let mut data = vec![0u8; 7];
    TimeProvider::from_unix_stamp(&UnixTimestamp::new_only_seconds(101))
        .unwrap()
        .write_to_bytes(&mut data)
        .unwrap();
    inner.append_to_vec(&mut data).unwrap();
    // Bytes behind the wrapped telecommand are no part of it.
    data.extend_from_slice(&[0xEE, 0xEE]);
    let outer = PusTc::new(&mut sph, 11, 4, Some(&data));
    let addr = scheduler.insert_wrapped_tc(&outer, &mut store).unwrap();
    assert_eq!(store.pool().read(&addr).unwrap(), &data[7..20]);
    assert_eq!(scheduler.scheduled_addrs(), vec![addr]);
    let wrong = PusTc::new(&mut sph, 11, 3, Some(&data));
    assert_eq!(scheduler.insert_wrapped_tc(&wrong, &mut store), Err(ScheduleError::WrongSubservice));
    let wrong = PusTc::new(&mut sph, 8, 4, Some(&data));
    assert_eq!(scheduler.insert_wrapped_tc(&wrong, &mut store), Err(ScheduleError::WrongService));
    let empty = PusTc::new(&mut sph, 11, 4, None);
    assert_eq!(scheduler.insert_wrapped_tc(&empty, &mut store), Err(ScheduleError::TcDataEmpty));
    let mut bad_time = data.clone();
    bad_time[0] = 0;
    let bad = PusTc::new(&mut sph, 11, 4, Some(&bad_time));
    assert_eq!(
        scheduler.insert_wrapped_tc(&bad, &mut store),
        Err(ScheduleError::TimestampError(TimestampError::InvalidTimeCode(0)))
    );
    let bad = PusTc::new(&mut sph, 11, 4, Some(&data[..12]));
    assert_eq!(
        scheduler.insert_wrapped_tc(&bad, &mut store),
        Err(ScheduleError::PusError(PusError::RawDataTooShort(5)))
    );
    scheduler.update_time(UnixTimestamp::new_only_seconds(99));
    assert_eq!(
        scheduler.insert_wrapped_tc(&outer, &mut store),
        Err(ScheduleError::ReleaseTimeInTimeMargin)
    );
    scheduler.update_time(UnixTimestamp::new_only_seconds(100));
    assert!(scheduler.insert_wrapped_tc(&outer, &mut store).is_ok());
    assert_eq!(
        scheduler.insert_wrapped_tc(&outer, &mut store),
        Err(ScheduleError::StoreError(StoreError::OutOfSlots(13)))
    );
    assert_eq!(scheduler.num_scheduled_telecommands(), 2);
}

#[test]
fn store_round_trip_and_isolation() {
    let mut store = SharedTmStore::new(LocalPool::new(&PacketPoolCfg::new(vec![(2, 32), (1, 64)])));
    let long = test_tm(17, 0);
    let mut sph = SpHeader::tm(0x7, 1, 0).unwrap();
    let short = PusTm::new(&mut sph, PusTmSecondaryHeader::new(3, 25, 0, 0, &[0; 7]), None, true);
    assert_eq!((long.len_packed(), short.len_packed()), (24, 22));
    // The packet goes to the first free slot of the smallest bucket that fits.
    let first = store.add_pus_tm(&long).unwrap();
    assert_eq!(first, StoreAddr { pool_idx: 0, packet_idx: 0 });
    assert_eq!(store.backing_pool().pool().read(&first).unwrap(), long.to_vec());
    let second = store.add_pus_tm(&short).unwrap();
    assert_eq!(second, StoreAddr { pool_idx: 0, packet_idx: 1 });
    // What was stored first is still there.
    assert_eq!(store.backing_pool().pool().read(&first).unwrap(), long.to_vec());
    assert!(!store.poisoned());
    // A slot that held a longer packet shows nothing of it behind a shorter one.
    let mut pool = LocalPool::new(&PacketPoolCfg::new(vec![(1, 32)]));
    let addr = pool.add(&long.to_vec()).unwrap();
    pool.delete(&addr).unwrap();
    let mut store = SharedTmStore::new(pool);
    assert_eq!(store.add_pus_tm(&short), Ok(addr));
    assert_eq!(store.backing_pool().pool().read(&addr).unwrap(), short.to_vec());
    assert_eq!(store.backing_pool().pool().len_packed(&addr), Ok(22));
}

#[test]
fn sender_forwards_the_address_of_what_it_stored() {
    let store = Rc::new(RefCell::new(LocalPool::new(&PacketPoolCfg::new(vec![(4, 32), (2, 64)]))));
    let (tx, rx) = mpsc::channel();
    let mut sender = MpscTmInStoreSender::new(1, "tm", SharedTmStore::new(Shared(store.clone())), tx);
    let packets: Vec<PusTm> = (0..5).map(|k| test_tm(17, k)).collect();
    for tm in &packets {
        sender.send_direct_tm(tm.clone()).unwrap();
    }
    // The addresses arrive in the order of the calls, each once, and each is that of its packet.
    let addrs: Vec<StoreAddr> = rx.try_iter().collect();
    assert_eq!(addrs.len(), 5);
    for (k, addr) in addrs.iter().enumerate() {
        assert!(!addrs[..k].contains(addr));
        assert_eq!(store.borrow().pool().read(addr).unwrap(), packets[k].to_vec());
    }
    // The same for the senders of verification reports and of events.
    let (tx, rx) = mpsc::channel();
    let mut reports = StdVerifSender::new(Shared(store.clone()), tx);
    let report = test_tm(1, 9);
    reports.send_verification_tm(report.clone()).unwrap();
    let addr = rx.try_recv().unwrap();
    assert_eq!(store.borrow().pool().read(&addr).unwrap(), report.to_vec());
    assert!(!addrs.contains(&addr));
}

/// A pool that a test looks into while a sender holds it.
struct Shared(Rc<RefCell<LocalPool>>);

impl PoolProvider for Shared {
    fn poisoned(&self) -> bool {
        false
    }

    fn add(&mut self, data: &[u8]) -> Result<StoreAddr, StoreError> {
        self.0.borrow_mut().add(data)
    }

    fn read_into(&mut self, addr: &StoreAddr, buf: &mut [u8]) -> Result<usize, StoreError> {
        self.0.borrow_mut().read_into(addr, buf)
    }

    fn overwrite(&mut self, addr: &StoreAddr, data: &[u8]) -> Result<(), StoreError> {
        self.0.borrow_mut().overwrite(addr, data)
    }

    fn delete(&mut self, addr: &StoreAddr) -> Result<(), StoreError> {
        self.0.borrow_mut().delete(addr)
    }
}
