//! Senders and receivers on channels: telemetry goes to a store and its
//! address into a channel, or it goes into a channel as bytes; telecommands
//! come out of a channel as addresses and are read from a store.
use crate::channels::{crossbeam_send, mpsc_send, mpsc_try_recv};
use crate::event_man::SenderId;
use crate::pool::{PoolProvider, StoreAddr, StoreError};
use crate::pus::{
    EcssChannel, EcssTcReceiverCore, EcssTmSenderCore, EcssTmtcError, GenericRecvError,
    GenericSendError, PusTmWrapper, ReceivedTcWrapper, TcAddrWithToken, TmWrapperModel,
};
use crate::spacepackets::{ByteConversionError, PusError, SizeMissmatch};
use crate::tc::PusTc;
use crate::pus_event::{EcssTmError, EcssTmSender};
use crate::tm::{PusTm, TmModel};
use crate::verification::{VerificationError, VerificationSender};
use std::sync::mpsc::{Receiver, Sender, TryRecvError};
use vstd::prelude::*;

verus! {

/// Why a verification report could not be sent through a store and a channel.
#[derive(Debug, Eq, PartialEq, Clone, Copy, Structural)]
pub enum StdVerifSenderError {
    /// The lock of the store was found poisoned.
    PoisonError,
    /// The store did not take the report.
    StoreError(StoreError),
    /// Nobody listens at the other end of the channel.
    RxDisconnected(StoreAddr),
}

/// The sending end of a channel for addresses.
pub trait SendBackend {
    /// Sends an address; it comes back where it could not be sent.
    fn send(&mut self, addr: StoreAddr) -> (r: Result<(), StoreAddr>)
        ensures
            r matches Err(back) ==> back == addr,
    ;
}

impl SendBackend for Sender<StoreAddr> {
    fn send(&mut self, addr: StoreAddr) -> (r: Result<(), StoreAddr>) {
        match mpsc_send(self, addr) {
            Ok(()) => Ok(()),
            Err(_) => Err(addr),
        }
    }
}

impl SendBackend for crossbeam_channel::Sender<StoreAddr> {
    fn send(&mut self, addr: StoreAddr) -> (r: Result<(), StoreAddr>) {
        match crossbeam_send(self, addr) {
            Ok(()) => Ok(()),
            Err(_) => Err(addr),
        }
    }
}

/// Sends verification reports: the report is written to the store and its
/// address goes into a channel.
pub struct StdSenderBase<S: SendBackend, P: PoolProvider> {
    pub ignore_poison_error: bool,
    tm_store: P,
    tx: S,
    log: Ghost<Seq<TmModel>>,
    offered: Ghost<Seq<TmModel>>,
    forwarded: Ghost<Seq<StoreAddr>>,
}

impl<S: SendBackend, P: PoolProvider> StdSenderBase<S, P> {
    /// The store is in order.
    pub closed spec fn wf(&self) -> bool {
        self.tm_store.usable()
    }

    /// What was added to the store through this sender.
    pub closed spec fn stored(&self) -> Seq<(StoreAddr, Seq<u8>)> {
        self.tm_store.added()
    }

    pub closed spec fn log(&self) -> Seq<TmModel> {
        self.log@
    }

    /// The reports that the sender was asked to send, with success or without.
    pub closed spec fn asked(&self) -> Seq<TmModel> {
        self.offered@
    }

    /// The addresses that the channel took, oldest first.
    pub closed spec fn forwarded(&self) -> Seq<StoreAddr> {
        self.forwarded@
    }

    /// Whether a poisoned lock is ignored.
    pub closed spec fn ignores_poison(&self) -> bool {
        self.ignore_poison_error
    }

    pub fn new(tm_store: P, tx: S) -> (r: Self)
        requires
            tm_store.usable(),
        ensures
            r.wf(),
            !r.ignores_poison(),
            r.log() == Seq::<TmModel>::empty(),
            r.asked() == Seq::<TmModel>::empty(),
            r.forwarded() == Seq::<StoreAddr>::empty(),
            r.stored() == tm_store.added(),
    {
        Self {
            ignore_poison_error: false,
            tm_store,
            tx,
            log: Ghost(Seq::empty()),
            offered: Ghost(Seq::empty()),
            forwarded: Ghost(Seq::empty()),
        }
    }

    /// What an attempt to store and send a report leaves behind. The result is
    /// `Ok` exactly if the lock was in order or is to be ignored, the store
    /// took the report and the channel took the address; the report is then in
    /// the log, and the address at which it was stored is the one that the
    /// channel took. A report that the store took is among what was stored,
    /// also where its address could not be sent. What was stored before stays.
    pub open spec fn stored_and_sent(
        before: &Self,
        after: &Self,
        tm: TmModel,
        r: Result<(), StdVerifSenderError>,
    ) -> bool {
        &&& after.wf()
        &&& after.ignores_poison() == before.ignores_poison()
        &&& after.asked() == before.asked().push(tm)
        &&& after.log() == (if r.is_ok() {
            before.log().push(tm)
        } else {
            before.log()
        })
        &&& match r {
            Ok(()) => exists|addr: StoreAddr|
                after.stored() == before.stored().push((addr, tm.bytes())) && after.forwarded()
                    == #[trigger] before.forwarded().push(addr),
            Err(StdVerifSenderError::PoisonError) => !before.ignores_poison() && after.stored()
                == before.stored() && after.forwarded() == before.forwarded(),
            Err(StdVerifSenderError::StoreError(_)) => after.stored() == before.stored()
                && after.forwarded() == before.forwarded(),
            Err(StdVerifSenderError::RxDisconnected(addr)) => after.stored() == before.stored().push(
                (addr, tm.bytes()),
            ) && after.forwarded() == before.forwarded(),
        }
    }

    /// What a call of `send_verification_tm` leaves behind: what
    /// [`Self::stored_and_sent`] says, with the error as a send error.
    pub open spec fn report_sent(
        before: &Self,
        after: &Self,
        tm: TmModel,
        r: Result<(), VerificationError<StdVerifSenderError>>,
    ) -> bool {
        match r {
            Ok(()) => Self::stored_and_sent(before, after, tm, Ok(())),
            Err(VerificationError::SendError(e)) => Self::stored_and_sent(before, after, tm, Err(e)),
            Err(_) => false,
        }
    }

    /// Writes the report to the store and sends its address, see
    /// [`Self::stored_and_sent`].
    pub fn store_and_send(&mut self, tm: PusTm) -> (r: Result<(), StdVerifSenderError>)
        requires
            old(self).wf(),
            tm.wf(),
        ensures
            Self::stored_and_sent(old(self), final(self), tm@, r),
    {
        proof {
            self.offered@ = self.offered@.push(tm@);
        }
        if self.tm_store.poisoned() && !self.ignore_poison_error {
            return Err(StdVerifSenderError::PoisonError);
        }
        let bytes = tm.to_vec();
        let addr = match self.tm_store.add(bytes.as_slice()) {
            Ok(addr) => addr,
            Err(e) => {
                return Err(StdVerifSenderError::StoreError(e));
            },
        };
        match self.tx.send(addr) {
            Ok(()) => {
                proof {
                    self.log@ = self.log@.push(tm@);
                    self.forwarded@ = self.forwarded@.push(addr);
                    assert(self.forwarded() == old(self).forwarded().push(addr));
                }
                Ok(())
            },
            Err(_) => Err(StdVerifSenderError::RxDisconnected(addr)),
        }
    }
}

impl<S: SendBackend, P: PoolProvider> VerificationSender<StdVerifSenderError> for StdSenderBase<S, P> {
    closed spec fn sent(&self) -> Seq<TmModel> {
        self.log@
    }

    closed spec fn offered(&self) -> Seq<TmModel> {
        self.offered@
    }

    closed spec fn usable(&self) -> bool {
        self.tm_store.usable()
    }

    fn send_verification_tm(&mut self, tm: PusTm) -> (r: Result<
        (),
        VerificationError<StdVerifSenderError>,
    >)
        ensures
            Self::report_sent(old(self), final(self), tm@, r),
    {
        match self.store_and_send(tm) {
            Ok(()) => Ok(()),
            Err(e) => Err(VerificationError::SendError(e)),
        }
    }
}

/// A sender of verification reports on a channel of the standard library.
pub struct StdVerifSender<P: PoolProvider> {
    base: StdSenderBase<Sender<StoreAddr>, P>,
}

impl<P: PoolProvider> StdVerifSender<P> {
    pub fn new(tm_store: P, tx: Sender<StoreAddr>) -> (r: Self)
        requires
            tm_store.usable(),
        ensures
            r.usable(),
            r.sent() == Seq::<TmModel>::empty(),
    {
        Self { base: StdSenderBase::new(tm_store, tx) }
    }

    /// The sender that does the work.
    pub closed spec fn base(&self) -> StdSenderBase<Sender<StoreAddr>, P> {
        self.base
    }

    /// Says whether the sender goes on where the lock of the store is
    /// poisoned. Nothing else changes.
    pub fn set_ignore_poison_error(&mut self, ignore: bool)
        ensures
            final(self).usable() == old(self).usable(),
            final(self).sent() == old(self).sent(),
            final(self).base().ignores_poison() == ignore,
            final(self).base().stored() == old(self).base().stored(),
            final(self).base().log() == old(self).base().log(),
            final(self).base().asked() == old(self).base().asked(),
            final(self).base().forwarded() == old(self).base().forwarded(),
            final(self).offered() == old(self).offered(),
            final(self).base().wf() == old(self).base().wf(),
    {
        self.base.ignore_poison_error = ignore;
    }
}

impl<P: PoolProvider> VerificationSender<StdVerifSenderError> for StdVerifSender<P> {
    closed spec fn sent(&self) -> Seq<TmModel> {
        self.base.sent()
    }

    closed spec fn offered(&self) -> Seq<TmModel> {
        self.base.offered()
    }

    closed spec fn usable(&self) -> bool {
        self.base.usable()
    }

    fn send_verification_tm(&mut self, tm: PusTm) -> (r: Result<
        (),
        VerificationError<StdVerifSenderError>,
    >)
        ensures
            StdSenderBase::report_sent(&old(self).base(), &final(self).base(), tm@, r),
    {
        self.base.send_verification_tm(tm)
    }
}

/// A sender of verification reports on a channel of `crossbeam_channel`.
pub struct CrossbeamVerifSender<P: PoolProvider> {
    base: StdSenderBase<crossbeam_channel::Sender<StoreAddr>, P>,
}

impl<P: PoolProvider> CrossbeamVerifSender<P> {
    pub fn new(tm_store: P, tx: crossbeam_channel::Sender<StoreAddr>) -> (r: Self)
        requires
            tm_store.usable(),
        ensures
            r.usable(),
            r.sent() == Seq::<TmModel>::empty(),
    {
        Self { base: StdSenderBase::new(tm_store, tx) }
    }

    /// The sender that does the work.
    pub closed spec fn base(&self) -> StdSenderBase<crossbeam_channel::Sender<StoreAddr>, P> {
        self.base
    }
}

impl<P: PoolProvider> VerificationSender<StdVerifSenderError> for CrossbeamVerifSender<P> {
    closed spec fn sent(&self) -> Seq<TmModel> {
        self.base.sent()
    }

    closed spec fn offered(&self) -> Seq<TmModel> {
        self.base.offered()
    }

    closed spec fn usable(&self) -> bool {
        self.base.usable()
    }

    fn send_verification_tm(&mut self, tm: PusTm) -> (r: Result<
        (),
        VerificationError<StdVerifSenderError>,
    >)
        ensures
            StdSenderBase::report_sent(&old(self).base(), &final(self).base(), tm@, r),
    {
        self.base.send_verification_tm(tm)
    }
}

/// The store that telemetry is written to before its address is sent on.
pub struct SharedTmStore<P: PoolProvider> {
    pool: P,
}

impl<P: PoolProvider> SharedTmStore<P> {
    pub closed spec fn usable(&self) -> bool {
        self.pool.usable()
    }

    /// What was added to the store through this handle.
    pub closed spec fn added(&self) -> Seq<(StoreAddr, Seq<u8>)> {
        self.pool.added()
    }

    /// Nobody else changes the pool behind the store, see
    /// [`PoolProvider::exclusive`].
    pub closed spec fn exclusive(&self) -> bool {
        self.pool.exclusive()
    }

    /// What the pool behind the store holds, where the store is exclusive.
    pub closed spec fn model(&self) -> crate::pool::PoolModel {
        self.pool.model()
    }

    pub fn new(backing_pool: P) -> (r: Self)
        requires
            backing_pool.usable(),
        ensures
            r.usable(),
            r.added() == backing_pool.added(),
            r.exclusive() == backing_pool.exclusive(),
            r.model() == backing_pool.model(),
    {
        Self { pool: backing_pool }
    }

    /// The pool behind the store: it holds what the store holds.
    pub fn backing_pool(&self) -> (r: &P)
        ensures
            r.usable() == self.usable(),
            r.added() == self.added(),
            r.exclusive() == self.exclusive(),
            r.model() == self.model(),
    {
        &self.pool
    }

    /// Whether the lock of the pool was found poisoned.
    pub fn poisoned(&self) -> bool {
        self.pool.poisoned()
    }

    /// Writes a packet to the store and returns its address. Where nobody
    /// else changes the pool, the packed form of the packet stands in the
    /// first free slot of the first bucket that fits, see
    /// [`crate::pool::PoolModel::add_post`].
    pub fn add_pus_tm(&mut self, pus_tm: &PusTm) -> (r: Result<StoreAddr, StoreError>)
        requires
            old(self).usable(),
        ensures
            final(self).usable(),
            match r {
                Ok(addr) => final(self).added() == old(self).added().push((addr, pus_tm@.bytes())),
                Err(_) => final(self).added() == old(self).added(),
            },
            old(self).exclusive() ==> final(self).exclusive() && old(self).model().add_post(
                pus_tm@.bytes(),
                r,
                final(self).model(),
            ),
    {
        let bytes = pus_tm.to_vec();
        self.pool.add(bytes.as_slice())
    }
}

/// A telemetry sender that writes packets to a store and sends their
/// addresses on a channel of the standard library.
pub struct MpscTmInStoreSender<P: PoolProvider> {
    id: SenderId,
    name: &'static str,
    shared_tm_store: SharedTmStore<P>,
    sender: Sender<StoreAddr>,
    pub ignore_poison_errors: bool,
    log: Ghost<Seq<TmWrapperModel>>,
    reports: Ghost<Seq<TmModel>>,
    offered_reports: Ghost<Seq<TmModel>>,
    offered_tm: Ghost<Seq<TmWrapperModel>>,
    forwarded: Ghost<Seq<StoreAddr>>,
}

impl<P: PoolProvider> MpscTmInStoreSender<P> {
    pub closed spec fn wf(&self) -> bool {
        self.shared_tm_store.usable()
    }

    /// What was added to the store through this sender.
    pub closed spec fn stored(&self) -> Seq<(StoreAddr, Seq<u8>)> {
        self.shared_tm_store.added()
    }

    pub closed spec fn log(&self) -> Seq<TmWrapperModel> {
        self.log@
    }

    /// The verification reports sent through this sender.
    pub closed spec fn reports(&self) -> Seq<TmModel> {
        self.reports@
    }

    /// The verification reports that the sender was asked to send, with
    /// success or without.
    pub closed spec fn asked(&self) -> Seq<TmModel> {
        self.offered_reports@
    }

    /// The telemetry that the sender was asked to send, with success or
    /// without.
    pub closed spec fn asked_tm(&self) -> Seq<TmWrapperModel> {
        self.offered_tm@
    }

    /// The addresses that the channel took, oldest first.
    pub closed spec fn forwarded(&self) -> Seq<StoreAddr> {
        self.forwarded@
    }

    pub fn new(
        id: SenderId,
        name: &'static str,
        shared_tm_store: SharedTmStore<P>,
        sender: Sender<StoreAddr>,
    ) -> (r: Self)
        requires
            shared_tm_store.usable(),
        ensures
            r.wf(),
            r.log() == Seq::<TmWrapperModel>::empty(),
            r.asked_tm() == Seq::<TmWrapperModel>::empty(),
            r.reports() == Seq::<TmModel>::empty(),
            r.asked() == Seq::<TmModel>::empty(),
            r.forwarded() == Seq::<StoreAddr>::empty(),
            r.stored() == shared_tm_store.added(),
    {
        Self {
            id,
            name,
            shared_tm_store,
            sender,
            ignore_poison_errors: false,
            log: Ghost(Seq::empty()),
            reports: Ghost(Seq::empty()),
            offered_reports: Ghost(Seq::empty()),
            offered_tm: Ghost(Seq::empty()),
            forwarded: Ghost(Seq::empty()),
        }
    }

    /// Whether a poisoned lock is ignored.
    pub closed spec fn ignores_poison(&self) -> bool {
        self.ignore_poison_errors
    }

    /// What an attempt to store a packet and send its address leaves behind.
    /// With success the packet is in the log, it was stored behind what was
    /// stored before, and the address at which it was stored is the one that
    /// the channel took. A poisoned lock is an error unless it is to be
    /// ignored, and nothing is stored then. Nothing is stored either where the
    /// store refuses. A packet whose address the channel did not take was
    /// stored all the same.
    pub open spec fn direct_sent(
        before: &Self,
        after: &Self,
        tm: TmModel,
        r: Result<(), EcssTmtcError>,
    ) -> bool {
        &&& after.wf()
        &&& after.ignores_poison() == before.ignores_poison()
        &&& after.asked_tm() == before.asked_tm().push(TmWrapperModel::Direct(tm))
        &&& after.log() == (if r.is_ok() {
            before.log().push(TmWrapperModel::Direct(tm))
        } else {
            before.log()
        })
        &&& match r {
            Ok(()) => exists|addr: StoreAddr|
                after.stored() == before.stored().push((addr, tm.bytes())) && after.forwarded()
                    == #[trigger] before.forwarded().push(addr),
            Err(EcssTmtcError::StoreLock) => !before.ignores_poison() && after.stored()
                == before.stored() && after.forwarded() == before.forwarded(),
            Err(EcssTmtcError::Store(_)) => after.stored() == before.stored() && after.forwarded()
                == before.forwarded(),
            Err(EcssTmtcError::Send(GenericSendError::RxDisconnected)) => after.forwarded()
                == before.forwarded() && exists|addr: StoreAddr|
                after.stored() == #[trigger] before.stored().push((addr, tm.bytes())),
            Err(_) => false,
        }
    }

    /// What an attempt to send on an address leaves behind: with success the
    /// address is in the log; the only error is that of a channel that nobody
    /// listens to. Nothing is stored.
    pub open spec fn addr_sent(
        before: &Self,
        after: &Self,
        addr: StoreAddr,
        r: Result<(), EcssTmtcError>,
    ) -> bool {
        &&& after.wf()
        &&& after.ignores_poison() == before.ignores_poison()
        &&& after.stored() == before.stored()
        &&& after.asked_tm() == before.asked_tm().push(TmWrapperModel::InStore(addr))
        &&& match r {
            Ok(()) => after.log() == before.log().push(TmWrapperModel::InStore(addr))
                && after.forwarded() == before.forwarded().push(addr),
            Err(e) => after.log() == before.log() && after.forwarded() == before.forwarded() && e
                == EcssTmtcError::Send(GenericSendError::RxDisconnected),
        }
    }

    /// Writes a packet to the store and sends its address, see
    /// [`Self::direct_sent`].
    pub fn send_direct_tm(&mut self, tm: PusTm) -> (r: Result<(), EcssTmtcError>)
        requires
            old(self).wf(),
            tm.wf(),
        ensures
            final(self).reports() == old(self).reports(),
            final(self).asked() == old(self).asked(),
            Self::direct_sent(old(self), final(self), tm@, r),
    {
        proof {
            self.offered_tm@ = self.offered_tm@.push(TmWrapperModel::Direct(tm@));
        }
        if self.shared_tm_store.poisoned() && !self.ignore_poison_errors {
            return Err(EcssTmtcError::StoreLock);
        }
        let addr = match self.shared_tm_store.add_pus_tm(&tm) {
            Ok(addr) => addr,
            Err(e) => {
                return Err(EcssTmtcError::Store(e));
            },
        };
        match mpsc_send(&self.sender, addr) {
            Ok(()) => {
                proof {
                    self.log@ = self.log@.push(TmWrapperModel::Direct(tm@));
                    self.forwarded@ = self.forwarded@.push(addr);
                    assert(self.forwarded() == old(self).forwarded().push(addr));
                }
                Ok(())
            },
            Err(_) => {
                proof {
                    assert(self.stored() == old(self).stored().push((addr, tm@.bytes())));
                }
                Err(EcssTmtcError::Send(GenericSendError::RxDisconnected))
            },
        }
    }
}

impl<P: PoolProvider> EcssChannel for MpscTmInStoreSender<P> {
    fn id(&self) -> SenderId {
        self.id
    }

    fn name(&self) -> &'static str {
        self.name
    }
}

impl<P: PoolProvider> EcssTmSenderCore for MpscTmInStoreSender<P> {
    closed spec fn sent(&self) -> Seq<TmWrapperModel> {
        self.log@
    }

    closed spec fn offered(&self) -> Seq<TmWrapperModel> {
        self.offered_tm@
    }

    closed spec fn usable(&self) -> bool {
        self.shared_tm_store.usable()
    }

    fn send_tm(&mut self, tm: PusTmWrapper) -> (r: Result<(), EcssTmtcError>)
        ensures
            final(self).reports() == old(self).reports(),
            final(self).asked() == old(self).asked(),
            match tm {
                PusTmWrapper::InStore(addr) => Self::addr_sent(old(self), final(self), addr, r),
                PusTmWrapper::Direct(packet) => Self::direct_sent(old(self), final(self), packet@, r),
            },
    {
        match tm {
            PusTmWrapper::InStore(addr) => {
                proof {
                    self.offered_tm@ = self.offered_tm@.push(TmWrapperModel::InStore(addr));
                }
                match mpsc_send(&self.sender, addr) {
                    Ok(()) => {
                        proof {
                            self.log@ = self.log@.push(TmWrapperModel::InStore(addr));
                            self.forwarded@ = self.forwarded@.push(addr);
                        }
                        Ok(())
                    },
                    Err(_) => Err(EcssTmtcError::Send(GenericSendError::RxDisconnected)),
                }
            },
            PusTmWrapper::Direct(tm) => self.send_direct_tm(tm),
        }
    }
}

impl<P: PoolProvider> VerificationSender<EcssTmtcError> for MpscTmInStoreSender<P> {
    closed spec fn sent(&self) -> Seq<TmModel> {
        self.reports@
    }

    closed spec fn offered(&self) -> Seq<TmModel> {
        self.offered_reports@
    }

    closed spec fn usable(&self) -> bool {
        self.shared_tm_store.usable()
    }

    fn send_verification_tm(&mut self, tm: PusTm) -> (r: Result<(), VerificationError<EcssTmtcError>>)
        ensures
            match r {
                Ok(()) => Self::direct_sent(old(self), final(self), tm@, Ok(())),
                Err(VerificationError::SendError(e)) => Self::direct_sent(
                    old(self),
                    final(self),
                    tm@,
                    Err(e),
                ),
                Err(_) => false,
            },
    {
        let ghost report = tm@;
        let sent = self.send_direct_tm(tm);
        proof {
            self.offered_reports@ = self.offered_reports@.push(report);
        }
        match sent {
            Ok(()) => {
                proof {
                    self.reports@ = self.reports@.push(report);
                }
                Ok(())
            },
            Err(e) => Err(VerificationError::SendError(e)),
        }
    }
}

/// A telecommand receiver that takes addresses from a channel of the standard
/// library and reads the telecommands from a store.
pub struct MpscTcInStoreReceiver<P: PoolProvider> {
    id: SenderId,
    name: &'static str,
    shared_tc_pool: P,
    receiver: Receiver<TcAddrWithToken>,
    pub ignore_poison_errors: bool,
}

impl<P: PoolProvider> MpscTcInStoreReceiver<P> {
    pub closed spec fn wf(&self) -> bool {
        self.shared_tc_pool.usable()
    }

    pub fn new(
        id: SenderId,
        name: &'static str,
        shared_tc_pool: P,
        receiver: Receiver<TcAddrWithToken>,
    ) -> (r: Self)
        requires
            shared_tc_pool.usable(),
        ensures
            r.wf(),
            EcssTcReceiverCore::usable(&r),
    {
        Self { id, name, shared_tc_pool, receiver, ignore_poison_errors: false }
    }

    /// The pool that the telecommands are read from.
    pub fn pool_mut(&mut self) -> (r: &mut P)
        requires
            old(self).wf(),
        ensures
            r.usable(),
            final(r).usable() ==> final(self).wf(),
    {
        &mut self.shared_tc_pool
    }

    /// What the reading of the telecommand that `message` names leaves
    /// behind and returns. A message that did not arrive gives the error of
    /// the channel, and the buffer stays. For an address with a token, the
    /// telecommand is read from the store to the front of the buffer and
    /// parsed; the result has the address and the token of the message. A
    /// poisoned lock that is not to be ignored and an error of the store leave
    /// the buffer as it was.
    pub open spec fn received(
        before: &Self,
        after: &Self,
        message: Result<TcAddrWithToken, TryRecvError>,
        buf_before: Seq<u8>,
        buf_after: Seq<u8>,
        r: Result<ReceivedTcWrapper, EcssTmtcError>,
    ) -> bool {
        &&& after.wf()
        &&& buf_after.len() == buf_before.len()
        &&& match r {
            Ok(received) => {
                &&& received.tc.wf()
                &&& message matches Ok((addr, token)) && received.addr == addr && received.token
                    == Some(token)
                &&& exists|n: int|
                    0 <= n <= buf_after.len() && crate::tc::parse_tc(
                        #[trigger] buf_after.subrange(0, n),
                    ) == Ok::<crate::tc::TcModel, PusError>(received.tc@)
            },
            Err(EcssTmtcError::Recv(e)) => message matches Err(m) && e == (match m {
                TryRecvError::Empty => GenericRecvError::Empty,
                TryRecvError::Disconnected => GenericRecvError::TxDisconnected,
            }) && buf_after == buf_before,
            Err(EcssTmtcError::StoreLock) => message.is_ok() && buf_after == buf_before,
            Err(EcssTmtcError::Store(_)) => message.is_ok() && buf_after == buf_before,
            Err(EcssTmtcError::Pus(_)) => message.is_ok(),
            Err(_) => false,
        }
    }

    /// Reads the telecommand that `message` names into `buf`, see
    /// [`Self::received`].
    pub fn read_received(&mut self, message: Result<TcAddrWithToken, TryRecvError>, buf: &mut [u8]) -> (r:
        Result<ReceivedTcWrapper, EcssTmtcError>)
        requires
            old(self).wf(),
        ensures
            Self::received(old(self), final(self), message, old(buf)@, final(buf)@, r),
    {
        let (addr, token) = match message {
            Ok(m) => m,
            Err(TryRecvError::Empty) => {
                return Err(EcssTmtcError::Recv(GenericRecvError::Empty));
            },
            Err(TryRecvError::Disconnected) => {
                return Err(EcssTmtcError::Recv(GenericRecvError::TxDisconnected));
            },
        };
        if self.shared_tc_pool.poisoned() && !self.ignore_poison_errors {
            return Err(EcssTmtcError::StoreLock);
        }
        let n = match self.shared_tc_pool.read_into(&addr, buf) {
            Ok(n) => n,
            Err(StoreError::SlotSizeTooSmall(len)) => {
                return Err(
                    EcssTmtcError::Pus(
                        PusError::ByteConversion(
                            ByteConversionError::ToSliceTooSmall(
                                SizeMissmatch { found: buf.len(), expected: len },
                            ),
                        ),
                    ),
                );
            },
            Err(e) => {
                return Err(EcssTmtcError::Store(e));
            },
        };
        match PusTc::new_from_raw_slice(vstd::slice::slice_subrange(buf, 0, n)) {
            Ok(tc) => Ok(ReceivedTcWrapper { tc, addr, token: Some(token) }),
            Err(e) => Err(EcssTmtcError::Pus(e)),
        }
    }
}

impl<P: PoolProvider> EcssChannel for MpscTcInStoreReceiver<P> {
    fn id(&self) -> SenderId {
        self.id
    }

    fn name(&self) -> &'static str {
        self.name
    }
}

impl<P: PoolProvider> EcssTcReceiverCore for MpscTcInStoreReceiver<P> {
    closed spec fn usable(&self) -> bool {
        self.shared_tc_pool.usable()
    }

    fn recv_tc(&mut self, buf: &mut [u8]) -> (r: Result<ReceivedTcWrapper, EcssTmtcError>)
        ensures
            exists|message: Result<TcAddrWithToken, TryRecvError>| #[trigger]
                Self::received(old(self), final(self), message, old(buf)@, final(buf)@, r),
    {
        let message = mpsc_try_recv(&self.receiver);
        let r = self.read_received(message, buf);
        proof {
            assert(Self::received(old(self), self, message, old(buf)@, buf@, r));
        }
        r
    }
}

/// A telemetry sender that sends packets as bytes on a channel of the
/// standard library. It cannot send what is in a store.
pub struct MpscTmAsVecSender {
    id: SenderId,
    sender: Sender<Vec<u8>>,
    name: &'static str,
    log: Ghost<Seq<TmWrapperModel>>,
    reports: Ghost<Seq<TmModel>>,
    offered_reports: Ghost<Seq<TmModel>>,
    offered_tm: Ghost<Seq<TmWrapperModel>>,
}

impl MpscTmAsVecSender {
    pub closed spec fn log(&self) -> Seq<TmWrapperModel> {
        self.log@
    }

    /// The verification reports sent through this sender.
    pub closed spec fn reports(&self) -> Seq<TmModel> {
        self.reports@
    }

    /// The verification reports that the sender was asked to send, with
    /// success or without.
    pub closed spec fn asked(&self) -> Seq<TmModel> {
        self.offered_reports@
    }

    pub fn new(id: u32, name: &'static str, sender: Sender<Vec<u8>>) -> (r: Self)
        ensures
            r.log() == Seq::<TmWrapperModel>::empty(),
            r.reports() == Seq::<TmModel>::empty(),
            EcssTmSenderCore::sent(&r) == Seq::<TmWrapperModel>::empty(),
            EcssTmSenderCore::offered(&r) == Seq::<TmWrapperModel>::empty(),
            VerificationSender::<EcssTmtcError>::sent(&r) == Seq::<TmModel>::empty(),
            VerificationSender::<EcssTmtcError>::offered(&r) == Seq::<TmModel>::empty(),
    {
        Self {
            id,
            sender,
            name,
            log: Ghost(Seq::empty()),
            reports: Ghost(Seq::empty()),
            offered_reports: Ghost(Seq::empty()),
            offered_tm: Ghost(Seq::empty()),
        }
    }
}

impl EcssChannel for MpscTmAsVecSender {
    fn id(&self) -> SenderId {
        self.id
    }

    fn name(&self) -> &'static str {
        self.name
    }
}

impl EcssTmSenderCore for MpscTmAsVecSender {
    closed spec fn sent(&self) -> Seq<TmWrapperModel> {
        self.log@
    }

    closed spec fn offered(&self) -> Seq<TmWrapperModel> {
        self.offered_tm@
    }

    fn send_tm(&mut self, tm: PusTmWrapper) -> (r: Result<(), EcssTmtcError>)
        ensures
            final(self).reports() == old(self).reports(),
            final(self).asked() == old(self).asked(),
            tm matches PusTmWrapper::InStore(addr) ==> r == Err::<(), EcssTmtcError>(
                EcssTmtcError::CantSendAddr(addr),
            ),
            tm is Direct ==> r.is_ok() || r == Err::<(), EcssTmtcError>(
                EcssTmtcError::Send(GenericSendError::RxDisconnected),
            ),
    {
        proof {
            self.offered_tm@ = self.offered_tm@.push(tm@);
        }
        match tm {
            PusTmWrapper::InStore(addr) => Err(EcssTmtcError::CantSendAddr(addr)),
            PusTmWrapper::Direct(tm) => {
                let mut vec = Vec::new();
                tm.append_to_vec(&mut vec);
                match mpsc_send(&self.sender, vec) {
                    Ok(()) => {
                        proof {
                            self.log@ = self.log@.push(TmWrapperModel::Direct(tm@));
                        }
                        Ok(())
                    },
                    Err(_) => Err(EcssTmtcError::Send(GenericSendError::RxDisconnected)),
                }
            },
        }
    }
}

impl VerificationSender<EcssTmtcError> for MpscTmAsVecSender {
    closed spec fn sent(&self) -> Seq<TmModel> {
        self.reports@
    }

    closed spec fn offered(&self) -> Seq<TmModel> {
        self.offered_reports@
    }

    fn send_verification_tm(&mut self, tm: PusTm) -> (r: Result<(), VerificationError<EcssTmtcError>>)
        ensures
            match r {
                Ok(()) => final(self).log() == old(self).log().push(TmWrapperModel::Direct(tm@)),
                Err(e) => final(self).log() == old(self).log() && e == VerificationError::SendError(
                    EcssTmtcError::Send(GenericSendError::RxDisconnected),
                ),
            },
    {
        let ghost report = tm@;
        let sent = self.send_tm(PusTmWrapper::Direct(tm));
        proof {
            self.offered_reports@ = self.offered_reports@.push(report);
        }
        match sent {
            Ok(()) => {
                proof {
                    self.reports@ = self.reports@.push(report);
                }
                Ok(())
            },
            Err(e) => Err(VerificationError::SendError(e)),
        }
    }
}

/// A sender of event telemetry: the packet is written to a store and its
/// address goes into a channel of the standard library.
pub struct EventTmSender<P: PoolProvider> {
    store_helper: SharedTmStore<P>,
    sender: Sender<StoreAddr>,
    log: Ghost<Seq<TmModel>>,
    offered: Ghost<Seq<TmModel>>,
    forwarded: Ghost<Seq<StoreAddr>>,
}

impl<P: PoolProvider> EventTmSender<P> {
    /// What was added to the store through this sender.
    pub closed spec fn stored(&self) -> Seq<(StoreAddr, Seq<u8>)> {
        self.store_helper.added()
    }

    /// The addresses that the channel took, oldest first.
    pub closed spec fn forwarded(&self) -> Seq<StoreAddr> {
        self.forwarded@
    }

    pub fn new(store_helper: SharedTmStore<P>, sender: Sender<StoreAddr>) -> (r: Self)
        requires
            store_helper.usable(),
        ensures
            r.usable(),
            r.sent() == Seq::<TmModel>::empty(),
            r.offered() == Seq::<TmModel>::empty(),
            r.forwarded() == Seq::<StoreAddr>::empty(),
            r.stored() == store_helper.added(),
    {
        Self {
            store_helper,
            sender,
            log: Ghost(Seq::empty()),
            offered: Ghost(Seq::empty()),
            forwarded: Ghost(Seq::empty()),
        }
    }
}

impl<P: PoolProvider> EcssTmSender<EcssTmtcError> for EventTmSender<P> {
    closed spec fn sent(&self) -> Seq<TmModel> {
        self.log@
    }

    closed spec fn offered(&self) -> Seq<TmModel> {
        self.offered@
    }

    closed spec fn usable(&self) -> bool {
        self.store_helper.usable()
    }

    /// The packet is stored behind what was stored before, and the address at
    /// which it was stored is the one that the channel takes. Where the store
    /// refuses nothing is stored; a packet whose address the channel did not
    /// take was stored all the same.
    fn send_tm(&mut self, tm: PusTm) -> (r: Result<(), EcssTmError<EcssTmtcError>>)
        ensures
            match r {
                Ok(()) => exists|addr: StoreAddr|
                    final(self).stored() == old(self).stored().push((addr, tm@.bytes()))
                        && final(self).forwarded() == #[trigger] old(self).forwarded().push(addr),
                Err(EcssTmError::SendError(EcssTmtcError::Store(_))) => final(self).stored()
                    == old(self).stored() && final(self).forwarded() == old(self).forwarded(),
                Err(EcssTmError::SendError(EcssTmtcError::Send(GenericSendError::RxDisconnected))) =>
                    final(self).forwarded() == old(self).forwarded() && exists|addr: StoreAddr|
                        final(self).stored() == #[trigger] old(self).stored().push((addr, tm@.bytes())),
                Err(_) => false,
            },
    {
        proof {
            self.offered@ = self.offered@.push(tm@);
        }
        let addr = match self.store_helper.add_pus_tm(&tm) {
            Ok(addr) => addr,
            Err(e) => {
                return Err(EcssTmError::SendError(EcssTmtcError::Store(e)));
            },
        };
        match mpsc_send(&self.sender, addr) {
            Ok(()) => {
                proof {
                    self.log@ = self.log@.push(tm@);
                    self.forwarded@ = self.forwarded@.push(addr);
                    assert(self.forwarded() == old(self).forwarded().push(addr));
                }
                Ok(())
            },
            Err(_) => {
                proof {
                    assert(self.stored() == old(self).stored().push((addr, tm@.bytes())));
                }
                Err(EcssTmError::SendError(EcssTmtcError::Send(GenericSendError::RxDisconnected)))
            },
        }
    }
}

} // verus!
