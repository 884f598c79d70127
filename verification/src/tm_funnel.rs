//! The telemetry funnel: all telemetry passes through it on its way out.
//!
//! The funnel takes the address of a packet, sets the APID, the sequence
//! count and the message counter of the packet in the store, and sends the
//! address on. Addresses leave the funnel in the order in which they came.
use crate::channels::mpsc_send;
use crate::pool::{PoolProvider, StoreAddr};
use crate::pus::{EcssTmtcError, GenericSendError};
use crate::spacepackets::{PusError, MAX_APID, MAX_SEQ_COUNT};
use crate::tm::{PusTm, TmModel};
use std::sync::mpsc::Sender;
use vstd::prelude::*;

verus! {

/// Counts the packets of one APID, modulo 2^14.
pub struct SeqCountProviderSimple {
    seq_count: u16,
}

/// The sequence count after `count`.
pub open spec fn next_seq_count(count: u16) -> u16 {
    if count >= MAX_SEQ_COUNT {
        0
    } else {
        (count + 1) as u16
    }
}

impl SeqCountProviderSimple {
    pub closed spec fn count(&self) -> u16 {
        self.seq_count
    }

    pub fn new() -> (r: Self)
        ensures
            r.count() == 0,
    {
        Self { seq_count: 0 }
    }

    pub fn get(&self) -> (r: u16)
        ensures
            r == self.count(),
    {
        self.seq_count
    }

    pub fn increment(&mut self)
        ensures
            final(self).count() == next_seq_count(old(self).count()),
    {
        self.seq_count = if self.seq_count >= MAX_SEQ_COUNT {
            0
        } else {
            self.seq_count + 1
        };
    }

    /// The count as it is, which is then stepped.
    pub fn get_and_increment(&mut self) -> (r: u16)
        ensures
            r == old(self).count(),
            final(self).count() == next_seq_count(old(self).count()),
    {
        let val = self.get();
        self.increment();
        val
    }
}

/// Sends addresses on to the next station.
///
/// `forwarded` is the list of the addresses sent with success, oldest first.
pub trait AddrSender {
    /// The addresses that were sent on, oldest first.
    open spec fn forwarded(&self) -> Seq<StoreAddr> {
        arbitrary()
    }

    /// The addresses that the sender was asked to send on, with success or
    /// without, oldest first.
    open spec fn offered(&self) -> Seq<StoreAddr> {
        arbitrary()
    }

    /// Sends an address. An address that could not be sent leaves no trace.
    fn send_addr(&mut self, addr: StoreAddr) -> (r: Result<(), GenericSendError>)
        ensures
            final(self).offered() == old(self).offered().push(addr),
            r.is_ok() ==> final(self).forwarded() == old(self).forwarded().push(addr),
            r.is_err() ==> final(self).forwarded() == old(self).forwarded(),
    ;
}

/// An address sender on a channel of the standard library.
pub struct MpscAddrSender {
    sender: Sender<StoreAddr>,
    log: Ghost<Seq<StoreAddr>>,
    offered: Ghost<Seq<StoreAddr>>,
}

impl MpscAddrSender {
    pub fn new(sender: Sender<StoreAddr>) -> (r: Self)
        ensures
            r.forwarded() == Seq::<StoreAddr>::empty(),
            r.offered() == Seq::<StoreAddr>::empty(),
    {
        Self { sender, log: Ghost(Seq::empty()), offered: Ghost(Seq::empty()) }
    }
}

impl AddrSender for MpscAddrSender {
    closed spec fn forwarded(&self) -> Seq<StoreAddr> {
        self.log@
    }

    closed spec fn offered(&self) -> Seq<StoreAddr> {
        self.offered@
    }

    fn send_addr(&mut self, addr: StoreAddr) -> (r: Result<(), GenericSendError>)
        ensures
            r matches Err(e) ==> e == GenericSendError::RxDisconnected,
    {
        proof {
            self.offered@ = self.offered@.push(addr);
        }
        match mpsc_send(&self.sender, addr) {
            Ok(()) => {
                proof {
                    self.log@ = self.log@.push(addr);
                }
                Ok(())
            },
            Err(_) => Err(GenericSendError::RxDisconnected),
        }
    }
}

/// The packet `tm` as it leaves the funnel: with the APID of the funnel, the
/// given sequence count and the given message counter.
pub open spec fn funnelled(tm: TmModel, apid: u16, seq_count: u16, msg_counter: u16) -> TmModel {
    TmModel {
        sp_header: crate::spacepackets::SpHeader {
            packet_id: crate::spacepackets::PacketId { apid, ..tm.sp_header.packet_id },
            psc: crate::spacepackets::PacketSequenceCtrl { seq_count, ..tm.sp_header.psc },
            ..tm.sp_header
        },
        msg_counter,
        ..tm
    }
}

/// The message counter after `count`.
pub open spec fn next_msg_count(count: u16) -> u16 {
    if count == u16::MAX {
        0
    } else {
        (count + 1) as u16
    }
}

/// Length of the time stamp of the packets that pass the funnel.
pub const FUNNEL_TIMESTAMP_LEN: usize = 7;

/// The funnel.
pub struct TmFunnel<T: AddrSender> {
    tm_server_tx: T,
    apid: u16,
    seq_count_provider: SeqCountProviderSimple,
    msg_counter_map: Vec<u16>,
}

impl<T: AddrSender> TmFunnel<T> {
    /// The invariant of the funnel: there is a message counter for each of
    /// the 256 services, and APID and sequence count are in their ranges.
    pub closed spec fn wf(&self) -> bool {
        &&& self.msg_counter_map@.len() == 256
        &&& self.apid <= MAX_APID
        &&& self.seq_count_provider.count() <= MAX_SEQ_COUNT
    }

    pub closed spec fn apid(&self) -> u16 {
        self.apid
    }

    /// The sequence count of the next packet.
    pub closed spec fn seq_count(&self) -> u16 {
        self.seq_count_provider.count()
    }

    /// The message counter of the next packet of `service`.
    pub closed spec fn msg_count(&self, service: u8) -> u16 {
        self.msg_counter_map@[service as int]
    }

    /// The addresses that have left the funnel.
    pub closed spec fn forwarded(&self) -> Seq<StoreAddr> {
        self.tm_server_tx.forwarded()
    }

    /// The addresses for which the sender behind the funnel was asked.
    pub closed spec fn asked(&self) -> Seq<StoreAddr> {
        self.tm_server_tx.offered()
    }

    /// A funnel for `apid`, all counters 0; `None` where the APID has more
    /// than 11 bits.
    pub fn new(apid: u16, tm_server_tx: T) -> (r: Option<Self>)
        ensures
            match r {
                Some(f) => {
                    &&& apid <= MAX_APID
                    &&& f.wf()
                    &&& f.apid() == apid
                    &&& f.seq_count() == 0
                    &&& forall|s: u8| f.msg_count(s) == 0
                    &&& f.forwarded() == tm_server_tx.forwarded()
                },
                None => apid > MAX_APID,
            },
    {
        if apid > MAX_APID {
            return None;
        }
        let mut counters: Vec<u16> = Vec::new();
        let mut k: usize = 0;
        while k < 256
            invariant
                k <= 256,
                counters@.len() == k,
                forall|i: int| 0 <= i < k ==> counters@[i] == 0,
            decreases 256 - k,
        {
            counters.push(0);
            k += 1;
        }
        Some(
            Self {
                tm_server_tx,
                apid,
                seq_count_provider: SeqCountProviderSimple::new(),
                msg_counter_map: counters,
            },
        )
    }

    /// What the stamping of `raw` leaves behind and returns. Where `raw`
    /// holds a packet, the result is the packet as it leaves the funnel, see
    /// [`funnelled`], and the counters are stepped. Where `raw` holds no packet
    /// the error says why and the counters stay.
    pub open spec fn counted(before: &Self, after: &Self, raw: Seq<u8>, r: Result<Vec<u8>, PusError>) -> bool {
        &&& after.wf()
        &&& after.apid() == before.apid()
        &&& match crate::tm::parse_tm(raw, FUNNEL_TIMESTAMP_LEN as nat) {
            Ok(tm) => {
                &&& r matches Ok(bytes) && bytes@ == funnelled(
                    tm,
                    before.apid(),
                    before.seq_count(),
                    before.msg_count(tm.service),
                ).bytes() && bytes@.len() == tm.len_packed()
                &&& after.seq_count() == next_seq_count(before.seq_count())
                &&& after.msg_count(tm.service) == next_msg_count(before.msg_count(tm.service))
                &&& forall|s: u8| s != tm.service ==> after.msg_count(s) == before.msg_count(s)
            },
            Err(e) => {
                &&& r == Err::<Vec<u8>, PusError>(e)
                &&& Self::uncounted(before, after)
            },
        }
    }

    /// The counters are as before.
    pub open spec fn uncounted(before: &Self, after: &Self) -> bool {
        &&& after.seq_count() == before.seq_count()
        &&& forall|s: u8| after.msg_count(s) == before.msg_count(s)
    }

    /// Sets the counters of the packet in `raw`, see [`Self::counted`].
    /// Nothing is sent on.
    pub fn restamp(&mut self, raw: &[u8]) -> (r: Result<Vec<u8>, PusError>)
        requires
            old(self).wf(),
        ensures
            final(self).forwarded() == old(self).forwarded(),
            final(self).asked() == old(self).asked(),
            Self::counted(old(self), final(self), raw@, r),
    {
        let (mut tm, _size) = PusTm::from_bytes(raw, FUNNEL_TIMESTAMP_LEN)?;
        let done = tm.sp_header.set_apid(self.apid);
        let count = self.seq_count_provider.get_and_increment();
        let counted = tm.sp_header.set_seq_count(count);
        let service = tm.service() as usize;
        let entry = self.msg_counter_map[service];
        tm.sec_header.msg_counter = entry;
        self.msg_counter_map[service] = if entry == u16::MAX {
            0
        } else {
            entry + 1
        };
        Ok(tm.to_vec())
    }

    /// What an attempt to let a packet pass leaves behind and returns. Where
    /// the pool does not hand out the packet, the result is the error of the
    /// store; buffer and counters stay. Else the buffer holds at its front
    /// what the pool handed out, and that is stamped, see [`Self::counted`]:
    /// where it is no packet the result is that error. A packet that was
    /// stamped is written back, with the error of the store as result where
    /// that fails; else the sender behind the funnel is asked to send its
    /// address on, and the result is `Ok` or the error of that sender.
    pub open spec fn passed(
        before: &Self,
        after: &Self,
        buf_before: Seq<u8>,
        buf_after: Seq<u8>,
        addr: StoreAddr,
        r: Result<(), EcssTmtcError>,
    ) -> bool {
        ||| (r matches Err(EcssTmtcError::Store(_))) && buf_after == buf_before && Self::uncounted(
            before,
            after,
        ) && after.asked() == before.asked()
        ||| exists|n: int, stamped: Result<Vec<u8>, PusError>|
            0 <= n <= buf_after.len() && #[trigger] Self::counted(
                before,
                after,
                buf_after.subrange(0, n),
                stamped,
            ) && match stamped {
                Err(e) => r == Err::<(), EcssTmtcError>(EcssTmtcError::Pus(e)) && after.asked()
                    == before.asked(),
                Ok(_) => if r matches Err(EcssTmtcError::Store(_)) {
                    after.asked() == before.asked()
                } else {
                    (r matches Ok(()) || r matches Err(EcssTmtcError::Send(_))) && after.asked()
                        == before.asked().push(addr)
                },
            }
    }

    /// What a packet that has passed leaves in a pool that nobody else
    /// changes: the slot at `addr` held a packet, and holds that packet as it
    /// leaves the funnel, see [`funnelled`].
    pub open spec fn written_back(
        before: &Self,
        pool_before: crate::pool::PoolModel,
        pool_after: crate::pool::PoolModel,
        addr: StoreAddr,
    ) -> bool {
        match pool_before.read_result(addr) {
            Ok(raw) => match crate::tm::parse_tm(raw, FUNNEL_TIMESTAMP_LEN as nat) {
                Ok(tm) => pool_after.read_result(addr) == Ok::<Seq<u8>, crate::pool::StoreError>(
                    funnelled(
                        tm,
                        before.apid(),
                        before.seq_count(),
                        before.msg_count(tm.service),
                    ).bytes(),
                ),
                Err(_) => false,
            },
            Err(_) => false,
        }
    }

    /// Lets one packet pass: reads it from `pool`, sets its counters, writes
    /// it back and sends its address on, see [`Self::passed`]. The address is
    /// sent on exactly if the result is `Ok`, and the packet was written back
    /// then, see [`Self::written_back`].
    pub fn handle_addr<P: PoolProvider>(&mut self, pool: &mut P, addr: StoreAddr, buf: &mut [u8]) -> (r:
        Result<(), EcssTmtcError>)
        requires
            old(self).wf(),
            old(pool).usable(),
        ensures
            final(self).wf(),
            final(pool).usable(),
            final(pool).added() == old(pool).added(),
            final(buf)@.len() == old(buf)@.len(),
            final(self).apid() == old(self).apid(),
            final(self).forwarded() == (if r.is_ok() {
                old(self).forwarded().push(addr)
            } else {
                old(self).forwarded()
            }),
            Self::passed(old(self), final(self), old(buf)@, final(buf)@, addr, r),
            old(pool).exclusive() ==> final(pool).exclusive(),
            old(pool).exclusive() && r.is_ok() ==> Self::written_back(
                old(self),
                old(pool).model(),
                final(pool).model(),
                addr,
            ),
    {
        let room = buf.len();
        let n = match pool.read_into(&addr, buf) {
            Ok(n) => n,
            Err(e) => {
                return Err(EcssTmtcError::Store(e));
            },
        };
        proof {
            if old(pool).exclusive() {
                let held = old(pool).model();
                assert(held.read_into_post(addr, old(buf)@, buf@, Ok::<usize, crate::pool::StoreError>(n)));
                assert(held.read_result(addr) is Ok);
                let payload = held.read_result(addr)->Ok_0;
                assert(payload.len() <= room);
                assert(n == payload.len());
                assert(buf@ == payload + old(buf)@.subrange(payload.len() as int, old(buf)@.len() as int));
                assert(buf@.subrange(0, n as int) =~= payload);
            }
        }
        let stamped = self.restamp(vstd::slice::slice_subrange(buf, 0, n));
        let ghost seen = stamped;
        let ghost mid = *self;
        let bytes = match stamped {
            Ok(b) => b,
            Err(e) => {
                return Err(EcssTmtcError::Pus(e));
            },
        };
        let ghost held = pool.model();
        let r = match pool.overwrite(&addr, bytes.as_slice()) {
            Err(e) => Err(EcssTmtcError::Store(e)),
            Ok(()) => match self.tm_server_tx.send_addr(addr) {
                Ok(()) => Ok(()),
                Err(e) => Err(EcssTmtcError::Send(e)),
            },
        };
        proof {
            if old(pool).exclusive() && r.is_ok() {
                held.lemma_put_twice(addr, Some(bytes@), Some(bytes@));
            }
        }
        proof {
            assert(Self::counted(old(self), &mid, buf@.subrange(0, n as int), seen));
            assert(Self::counted(old(self), self, buf@.subrange(0, n as int), seen));
        }
        r
    }

    /// Lets the packets at `addrs` pass, one after the other, until one of
    /// them cannot pass. Returns how many have passed. Their addresses have
    /// left the funnel in the order in which they were given.
    pub fn handle_all<P: PoolProvider>(&mut self, pool: &mut P, addrs: &[StoreAddr], buf: &mut [u8]) -> (r:
        usize)
        requires
            old(self).wf(),
            old(pool).usable(),
        ensures
            final(self).wf(),
            final(pool).usable(),
            final(buf)@.len() == old(buf)@.len(),
            final(pool).added() == old(pool).added(),
            final(self).apid() == old(self).apid(),
            r <= addrs@.len(),
            final(self).forwarded() == old(self).forwarded() + addrs@.subrange(0, r as int),
    {
        let mut i: usize = 0;
        assert(old(self).forwarded() + addrs@.subrange(0, 0) =~= old(self).forwarded());
        while i < addrs.len()
            invariant
                i <= addrs@.len(),
                self.wf(),
                pool.usable(),
                buf@.len() == old(buf)@.len(),
                pool.added() == old(pool).added(),
                self.apid() == old(self).apid(),
                self.forwarded() == old(self).forwarded() + addrs@.subrange(0, i as int),
            decreases addrs@.len() - i,
        {
            let ghost log = self.forwarded();
            if self.handle_addr(pool, addrs[i], buf).is_err() {
                return i;
            }
            assert(log.push(addrs@[i as int]) =~= old(self).forwarded() + addrs@.subrange(
                0,
                i as int + 1,
            ));
            i += 1;
        }
        i
    }
}

/// Funnel identity: where all of a list of addresses have passed the funnel,
/// what has left the funnel is the list itself, in its order, each address
/// once and none missing.
pub proof fn law_funnel_identity(
    before: Seq<StoreAddr>,
    after: Seq<StoreAddr>,
    addrs: Seq<StoreAddr>,
    passed: int,
)
    requires
        0 <= passed <= addrs.len(),
        after == before + addrs.subrange(0, passed),
        passed == addrs.len(),
    ensures
        after.len() == before.len() + addrs.len(),
        after.subrange(before.len() as int, after.len() as int) == addrs,
        forall|i: int| 0 <= i < addrs.len() ==> after[before.len() + i] == addrs[i],
{
    assert(addrs.subrange(0, passed) =~= addrs);
    assert(after.subrange(before.len() as int, after.len() as int) =~= addrs);
}

} // verus!
