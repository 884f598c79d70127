//! Fixed-capacity packet pool.
//!
//! The pool is a list of buckets. Every bucket holds a fixed number of slots of
//! one size. A slot is either free, and then holds zeroes only, or it is
//! allocated and remembers the length of its payload. Payloads are found again
//! through a [`StoreAddr`].
use vstd::prelude::*;

verus! {

/// Handle to one slot of a [`PacketPool`].
#[derive(Clone, Copy, Debug, PartialEq, Eq, Hash, Structural)]
pub struct StoreAddr {
    pub pool_idx: u16,
    pub packet_idx: u16,
}

impl StoreAddr {
    /// The two indices packed into one word, the bucket in the upper half.
    pub open spec fn raw_spec(self) -> u32 {
        (self.pool_idx as u32 * 0x1_0000 + self.packet_idx as u32) as u32
    }

    pub fn raw(&self) -> (r: u32)
        ensures
            r == self.raw_spec(),
    {
        let hi: u32 = self.pool_idx as u32;
        let lo: u32 = self.packet_idx as u32;
        hi * 0x1_0000 + lo
    }

    pub fn from_raw(raw: u32) -> (r: StoreAddr)
        ensures
            r.raw_spec() == raw,
            r.pool_idx == raw / 0x1_0000,
            r.packet_idx == raw % 0x1_0000,
    {
        StoreAddr { pool_idx: (raw / 0x1_0000) as u16, packet_idx: (raw % 0x1_0000) as u16 }
    }
}

/// Why a pool operation was refused.
#[derive(Clone, Copy, Debug, PartialEq, Eq, Structural)]
pub enum StoreError {
    /// Every bucket whose slots are large enough is full.
    OutOfSlots(usize),
    /// No bucket has slots of the requested size, or the data does not fit the slot.
    SlotSizeTooSmall(usize),
    /// The address names no slot of this pool.
    UnknownAddress(StoreAddr),
    /// The slot at this address is free.
    DoubleFree(StoreAddr),
}

/// One bucket of the configuration: how many slots, and how many bytes each.
#[derive(Clone, Copy, Debug, PartialEq, Eq, Structural)]
pub struct BucketCfg {
    pub num_slots: u16,
    pub slot_bytes: usize,
}

pub open spec fn sorted_by_size(cfg: Seq<BucketCfg>) -> bool {
    forall|i: int, j: int| 0 <= i <= j < cfg.len() ==> cfg[i].slot_bytes <= cfg[j].slot_bytes
}

/// The first `n` pairs of `pairs`, read as bucket configurations.
pub open spec fn buckets_of(pairs: Seq<(u16, usize)>, n: int) -> Seq<BucketCfg> {
    Seq::new(n as nat, |i: int| BucketCfg { num_slots: pairs[i].0, slot_bytes: pairs[i].1 })
}

pub open spec fn zeros(n: nat) -> Seq<u8> {
    Seq::new(n, |i: int| 0u8)
}

/// Pool configuration: the buckets in ascending order of slot size.
pub struct PacketPoolCfg {
    cfg: Vec<BucketCfg>,
}

impl View for PacketPoolCfg {
    type V = Seq<BucketCfg>;

    closed spec fn view(&self) -> Seq<BucketCfg> {
        self.cfg@
    }
}

impl PacketPoolCfg {
    /// The buckets are sorted and there are at most `u16::MAX` of them.
    pub closed spec fn wf(&self) -> bool {
        &&& sorted_by_size(self.cfg@)
        &&& self.cfg@.len() <= u16::MAX
    }

    /// Builds a configuration from `(num_slots, slot_bytes)` pairs in any order.
    /// The pairs are put in ascending order of slot size; pairs after the first
    /// `u16::MAX` are dropped.
    pub fn new(pairs: Vec<(u16, usize)>) -> (r: Self)
        ensures
            r.wf(),
            r@.len() == if pairs@.len() <= u16::MAX { pairs@.len() } else { u16::MAX as nat },
            r@.to_multiset() == buckets_of(pairs@, r@.len() as int).to_multiset(),
    {
        let n: usize = if pairs.len() <= u16::MAX as usize { pairs.len() } else { u16::MAX as usize };
        let mut cfg: Vec<BucketCfg> = Vec::new();
        let mut k: usize = 0;
        assert(cfg@ =~= buckets_of(pairs@, 0));
        while k < n
            invariant
                k <= n <= pairs@.len(),
                n <= u16::MAX,
                cfg@.len() == k,
                sorted_by_size(cfg@),
                cfg@.to_multiset() == buckets_of(pairs@, k as int).to_multiset(),
            decreases n - k,
        {
            let item = BucketCfg { num_slots: pairs[k].0, slot_bytes: pairs[k].1 };
            let mut pos: usize = 0;
            while pos < cfg.len() && cfg[pos].slot_bytes <= item.slot_bytes
                invariant
                    pos <= cfg@.len(),
                    forall|i: int| 0 <= i < pos ==> cfg@[i].slot_bytes <= item.slot_bytes,
                decreases cfg@.len() - pos,
            {
                pos += 1;
            }
            let ghost before = cfg@;
            cfg.insert(pos, item);
            proof {
                let prefix = buckets_of(pairs@, k as int);
                let next = buckets_of(pairs@, k as int + 1);
                assert(next =~= prefix.push(item));
                assert(cfg@ =~= before.insert(pos as int, item));
                vstd::seq_lib::to_multiset_build(prefix, item);
                vstd::seq_lib::to_multiset_insert(before, pos as int, item);
                assert(sorted_by_size(cfg@)) by {
                    assert forall|i: int, j: int| 0 <= i <= j < cfg@.len() implies cfg@[i].slot_bytes
                        <= cfg@[j].slot_bytes by {
                        if j < pos {
                        } else if j == pos {
                        } else if i < pos {
                            assert(cfg@[j] == before[j - 1]);
                        } else if i == pos {
                            assert(cfg@[j] == before[j - 1]);
                            assert(before[pos as int].slot_bytes <= before[j - 1].slot_bytes);
                        } else {
                            assert(cfg@[i] == before[i - 1]);
                            assert(cfg@[j] == before[j - 1]);
                        }
                    }
                }
            }
            k += 1;
        }
        PacketPoolCfg { cfg }
    }
}


/// What a pool holds, bucket by bucket: the slot size of each bucket and, for
/// each slot, its payload if the slot is allocated.
pub struct PoolModel {
    pub slot_sizes: Seq<nat>,
    pub slots: Seq<Seq<Option<Seq<u8>>>>,
}

impl PoolModel {
    /// `addr` names a slot of the pool.
    pub open spec fn valid(self, addr: StoreAddr) -> bool {
        &&& (addr.pool_idx as int) < self.slots.len()
        &&& (addr.packet_idx as int) < self.slots[addr.pool_idx as int].len()
    }

    /// The payload at `addr`, `None` for a free slot.
    pub open spec fn at(self, addr: StoreAddr) -> Option<Seq<u8>> {
        self.slots[addr.pool_idx as int][addr.packet_idx as int]
    }

    /// The pool with the slot at `addr` set to `v`.
    pub open spec fn put(self, addr: StoreAddr, v: Option<Seq<u8>>) -> PoolModel {
        PoolModel {
            slot_sizes: self.slot_sizes,
            slots: self.slots.update(
                addr.pool_idx as int,
                self.slots[addr.pool_idx as int].update(addr.packet_idx as int, v),
            ),
        }
    }

    /// Bucket `i` has a free slot.
    pub open spec fn has_free(self, i: int) -> bool {
        exists|j: int| 0 <= j < self.slots[i].len() && self.slots[i][j].is_none()
    }

    /// Bucket `i` can take a payload of `len` bytes.
    pub open spec fn fits(self, len: nat, i: int) -> bool {
        0 <= i < self.slots.len() && self.slot_sizes[i] >= len && self.has_free(i)
    }

    /// What reserving a slot for `len` bytes does: it takes the first free slot of the first bucket
    /// that fits, with a payload of `len` zeroes.
    pub open spec fn reserve_post(self, len: nat, r: Result<StoreAddr, StoreError>, after: PoolModel) -> bool {
        match r {
            Ok(addr) => {
                &&& self.valid(addr)
                &&& self.fits(len, addr.pool_idx as int)
                &&& forall|i: int| 0 <= i < addr.pool_idx ==> !self.fits(len, i)
                &&& self.at(addr).is_none()
                &&& forall|j: int|
                    0 <= j < addr.packet_idx ==> self.slots[addr.pool_idx as int][j].is_some()
                &&& after == self.put(addr, Some(zeros(len)))
            },
            Err(StoreError::SlotSizeTooSmall(l)) => {
                &&& l == len
                &&& forall|i: int| 0 <= i < self.slots.len() ==> self.slot_sizes[i] < len
                &&& after == self
            },
            Err(StoreError::OutOfSlots(l)) => {
                &&& l == len
                &&& exists|i: int| 0 <= i < self.slots.len() && self.slot_sizes[i] >= len
                &&& forall|i: int| 0 <= i < self.slots.len() ==> !self.fits(len, i)
                &&& after == self
            },
            Err(_) => false,
        }
    }

    /// Which error an access to `addr` meets, if any.
    pub open spec fn access_error(self, addr: StoreAddr) -> Option<StoreError> {
        if !self.valid(addr) {
            Some(StoreError::UnknownAddress(addr))
        } else if self.at(addr).is_none() {
            Some(StoreError::DoubleFree(addr))
        } else {
            None
        }
    }

    /// What `write(addr, bytes)` does.
    pub open spec fn write_post(self, addr: StoreAddr, bytes: Seq<u8>, r: Result<(), StoreError>, after: PoolModel) -> bool {
        match self.access_error(addr) {
            Some(e) => r == Err::<(), StoreError>(e) && after == self,
            None => if bytes.len() <= self.at(addr).unwrap().len() {
                r.is_ok() && after == self.put(addr, Some(bytes))
            } else {
                r == Err::<(), StoreError>(StoreError::SlotSizeTooSmall(bytes.len() as usize)) && after == self
            },
        }
    }

    /// What `read(addr)` returns.
    pub open spec fn read_result(self, addr: StoreAddr) -> Result<Seq<u8>, StoreError> {
        match self.access_error(addr) {
            Some(e) => Err(e),
            None => Ok(self.at(addr).unwrap()),
        }
    }

    /// What `free(addr)` does.
    pub open spec fn free_post(self, addr: StoreAddr, r: Result<(), StoreError>, after: PoolModel) -> bool {
        match self.access_error(addr) {
            Some(e) => r == Err::<(), StoreError>(e) && after == self,
            None => r.is_ok() && after == self.put(addr, None),
        }
    }

    /// The pool after an attempt to free the slot at `addr`: the slot is free
    /// where it was in use; an address that names no slot, or a free one,
    /// changes nothing.
    pub open spec fn freed(self, addr: StoreAddr) -> PoolModel {
        if self.access_error(addr).is_none() {
            self.put(addr, None)
        } else {
            self
        }
    }

    /// The pool after attempts to free the slots at `addrs`, one after the
    /// other.
    pub open spec fn freed_all(self, addrs: Seq<StoreAddr>) -> PoolModel
        decreases addrs.len(),
    {
        if addrs.len() == 0 {
            self
        } else {
            self.freed_all(addrs.drop_last()).freed(addrs.last())
        }
    }

    /// What `add(data)` does: a slot is reserved for the length of `data`,
    /// see [`Self::reserve_post`], and holds `data` then.
    pub open spec fn add_post(self, data: Seq<u8>, r: Result<StoreAddr, StoreError>, after: PoolModel) -> bool {
        match r {
            Ok(addr) => after == self.put(addr, Some(data)) && self.reserve_post(
                data.len(),
                Ok(addr),
                self.put(addr, Some(zeros(data.len()))),
            ),
            Err(e) => self.reserve_post(data.len(), Err(e), after),
        }
    }

    /// What a read of the payload at `addr` into a buffer does: the payload
    /// stands at the front of the buffer and its length is returned; a payload
    /// that does not fit the buffer is an error.
    pub open spec fn read_into_post(
        self,
        addr: StoreAddr,
        buf_before: Seq<u8>,
        buf_after: Seq<u8>,
        r: Result<usize, StoreError>,
    ) -> bool {
        match self.read_result(addr) {
            Ok(payload) => if payload.len() <= buf_before.len() {
                r == Ok::<usize, StoreError>(payload.len() as usize) && buf_after == payload
                    + buf_before.subrange(payload.len() as int, buf_before.len() as int)
            } else {
                r == Err::<usize, StoreError>(StoreError::SlotSizeTooSmall(payload.len() as usize))
            },
            Err(e) => r == Err::<usize, StoreError>(e),
        }
    }
}

impl PoolModel {
    /// Setting a slot twice leaves what was set last.
    pub proof fn lemma_put_twice(self, addr: StoreAddr, v: Option<Seq<u8>>, w: Option<Seq<u8>>)
        requires
            self.valid(addr),
        ensures
            self.put(addr, v).put(addr, w) == self.put(addr, w),
            self.put(addr, v).valid(addr),
            self.put(addr, v).at(addr) == v,
    {
        let i = addr.pool_idx as int;
        let j = addr.packet_idx as int;
        let a = self.put(addr, v).put(addr, w);
        let b = self.put(addr, w);
        assert(a.slots[i] =~= b.slots[i]);
        assert(a.slots =~= b.slots);
    }
}

struct Slot {
    used: bool,
    len: usize,
    data: Vec<u8>,
}

struct Bucket {
    slot_size: usize,
    slots: Vec<Slot>,
}

impl Slot {
    spec fn model(self) -> Option<Seq<u8>> {
        if self.used {
            Some(self.data@.subrange(0, self.len as int))
        } else {
            None
        }
    }

    spec fn wf(self, slot_size: usize) -> bool {
        &&& self.data@.len() == slot_size
        &&& self.len <= slot_size
        &&& !self.used ==> self.data@ == zeros(slot_size as nat)
    }
}

impl Bucket {
    spec fn model(self) -> Seq<Option<Seq<u8>>> {
        Seq::new(self.slots@.len(), |j: int| self.slots@[j].model())
    }

    spec fn wf(self) -> bool {
        &&& self.slots@.len() <= u16::MAX
        &&& forall|j: int| 0 <= j < self.slots@.len() ==> (#[trigger] self.slots@[j]).wf(self.slot_size)
    }
}

/// The pool itself. See [`PoolModel`] for what it holds.
pub struct PacketPool {
    buckets: Vec<Bucket>,
}

impl View for PacketPool {
    type V = PoolModel;

    closed spec fn view(&self) -> PoolModel {
        PoolModel {
            slot_sizes: Seq::new(self.buckets@.len(), |i: int| self.buckets@[i].slot_size as nat),
            slots: Seq::new(self.buckets@.len(), |i: int| self.buckets@[i].model()),
        }
    }
}

fn zeroed(n: usize) -> (v: Vec<u8>)
    ensures
        v@ == zeros(n as nat),
{
    let mut v: Vec<u8> = Vec::new();
    let mut i: usize = 0;
    while i < n
        invariant
            i <= n,
            v@ == zeros(i as nat),
        decreases n - i,
    {
        v.push(0u8);
        assert(v@ =~= zeros((i + 1) as nat));
        i += 1;
    }
    v
}

impl PacketPool {
    /// The invariant of the pool: every slot has the size of its bucket, a
    /// payload is never longer than its slot, and a free slot holds zeroes only.
    pub closed spec fn wf(&self) -> bool {
        &&& self.buckets@.len() <= u16::MAX
        &&& forall|i: int| 0 <= i < self.buckets@.len() ==> (#[trigger] self.buckets@[i]).wf()
        &&& forall|i: int, j: int|
            0 <= i <= j < self.buckets@.len() ==> self.buckets@[i].slot_size
                <= self.buckets@[j].slot_size
    }

    /// A pool with the buckets of `cfg`, every slot free.
    pub fn new(cfg: &PacketPoolCfg) -> (r: Self)
        requires
            cfg.wf(),
        ensures
            r.wf(),
            r@.slot_sizes == Seq::new(cfg@.len(), |i: int| cfg@[i].slot_bytes as nat),
            r@.slots == Seq::new(
                cfg@.len(),
                |i: int| Seq::new(cfg@[i].num_slots as nat, |j: int| None::<Seq<u8>>),
            ),
    {
        let mut buckets: Vec<Bucket> = Vec::new();
        let mut i: usize = 0;
        while i < cfg.cfg.len()
            invariant
                i <= cfg.cfg@.len() <= u16::MAX,
                sorted_by_size(cfg.cfg@),
                buckets@.len() == i,
                forall|k: int| 0 <= k < i ==> (#[trigger] buckets@[k]).wf(),
                forall|k: int| 0 <= k < i ==> (#[trigger] buckets@[k]).slot_size == cfg.cfg@[k].slot_bytes,
                forall|k: int| 0 <= k < i ==> (#[trigger] buckets@[k]).slots@.len() == cfg.cfg@[k].num_slots,
                forall|k: int, j: int|
                    0 <= k < i && 0 <= j < buckets@[k].slots@.len() ==> !(#[trigger] buckets@[k].slots@[j]).used,
            decreases cfg.cfg@.len() - i,
        {
            let b = cfg.cfg[i];
            let mut slots: Vec<Slot> = Vec::new();
            let mut j: u16 = 0;
            while j < b.num_slots
                invariant
                    j <= b.num_slots,
                    slots@.len() == j,
                    forall|k: int| 0 <= k < j ==> (#[trigger] slots@[k]).wf(b.slot_bytes),
                    forall|k: int| 0 <= k < j ==> !(#[trigger] slots@[k]).used,
                decreases b.num_slots - j,
            {
                slots.push(Slot { used: false, len: 0, data: zeroed(b.slot_bytes) });
                j += 1;
            }
            buckets.push(Bucket { slot_size: b.slot_bytes, slots });
            i += 1;
        }
        let r = PacketPool { buckets };
        proof {
            assert(r@.slot_sizes =~= Seq::new(cfg@.len(), |i: int| cfg@[i].slot_bytes as nat));
            assert forall|i: int| 0 <= i < cfg@.len() implies (#[trigger] r@.slots[i]) == Seq::new(
                cfg@[i].num_slots as nat,
                |j: int| None::<Seq<u8>>,
            ) by {
                assert(r.buckets@[i].slots@.len() == cfg.cfg@[i].num_slots);
                assert(r@.slots[i] =~= Seq::new(cfg@[i].num_slots as nat, |j: int| None::<Seq<u8>>));
            }
            assert(r@.slots =~= Seq::new(
                cfg@.len(),
                |i: int| Seq::new(cfg@[i].num_slots as nat, |j: int| None::<Seq<u8>>),
            ));
        }
        r
    }
}


impl PacketPool {
    proof fn lemma_model(&self, addr: StoreAddr)
        requires
            self.wf(),
        ensures
            self@.slots.len() == self.buckets@.len(),
            self@.slot_sizes.len() == self.buckets@.len(),
            self@.valid(addr) <==> (addr.pool_idx as int) < self.buckets@.len() && (
            addr.packet_idx as int) < self.buckets@[addr.pool_idx as int].slots@.len(),
            self@.valid(addr) ==> self@.at(addr)
                == self.buckets@[addr.pool_idx as int].slots@[addr.packet_idx as int].model(),
            self@.valid(addr) ==> self@.slot_sizes[addr.pool_idx as int]
                == self.buckets@[addr.pool_idx as int].slot_size,
    {
    }

    proof fn lemma_put(before: &Self, after: &Self, addr: StoreAddr, v: Option<Seq<u8>>)
        requires
            before@.valid(addr),
            after.buckets@.len() == before.buckets@.len(),
            forall|i: int|
                0 <= i < before.buckets@.len() ==> (#[trigger] after.buckets@[i]).slot_size
                    == before.buckets@[i].slot_size,
            forall|i: int|
                0 <= i < before.buckets@.len() ==> (#[trigger] after.buckets@[i]).slots@.len()
                    == before.buckets@[i].slots@.len(),
            forall|i: int, j: int|
                0 <= i < before.buckets@.len() && 0 <= j < before.buckets@[i].slots@.len() && !(i
                    == addr.pool_idx && j == addr.packet_idx) ==> (
                #[trigger] after.buckets@[i].slots@[j]) == before.buckets@[i].slots@[j],
            after.buckets@[addr.pool_idx as int].slots@[addr.packet_idx as int].model() == v,
        ensures
            after@ == before@.put(addr, v),
    {
        let want = before@.put(addr, v);
        assert(after@.slot_sizes =~= want.slot_sizes);
        assert forall|i: int| 0 <= i < before.buckets@.len() implies (#[trigger] after@.slots[i])
            == want.slots[i] by {
            assert(after.buckets@[i].slots@.len() == before.buckets@[i].slots@.len());
            assert forall|j: int| 0 <= j < before.buckets@[i].slots@.len() implies (
            #[trigger] after@.slots[i][j]) == want.slots[i][j] by {
                if i == addr.pool_idx && j == addr.packet_idx {
                } else {
                    assert(after.buckets@[i].slots@[j] == before.buckets@[i].slots@[j]);
                }
            }
            assert(after@.slots[i] =~= want.slots[i]);
        }
        assert(after@.slots =~= want.slots);
    }

    /// Index of the first free slot of bucket `i`, if there is one.
    fn find_free(&self, i: usize) -> (r: Option<u16>)
        requires
            self.wf(),
            i < self@.slots.len(),
        ensures
            match r {
                Some(j) => {
                    &&& (j as int) < self@.slots[i as int].len()
                    &&& self@.slots[i as int][j as int].is_none()
                    &&& forall|k: int| 0 <= k < j ==> self@.slots[i as int][k].is_some()
                },
                None => !self@.has_free(i as int),
            },
    {
        let mut j: usize = 0;
        while j < self.buckets[i].slots.len()
            invariant
                self.wf(),
                i < self.buckets@.len(),
                j <= self.buckets@[i as int].slots@.len(),
                forall|k: int| 0 <= k < j ==> self@.slots[i as int][k].is_some(),
            decreases self.buckets@[i as int].slots@.len() - j,
        {
            if !self.buckets[i].slots[j].used {
                assert(self.buckets@[i as int].wf());
                return Some(j as u16);
            }
            j += 1;
        }
        None
    }

    /// Reserves a slot for a payload of `len` bytes: the first free slot of the
    /// smallest bucket whose slots are large enough and which has one. The
    /// payload starts as `len` zeroes.
    pub fn free_element(&mut self, len: usize) -> (r: Result<StoreAddr, StoreError>)
        requires
            old(self).wf(),
        ensures
            final(self).wf(),
            old(self)@.reserve_post(len as nat, r, final(self)@),
    {
        let mut i: usize = 0;
        let mut any_large_enough = false;
        let ghost mut large: int = 0;
        while i < self.buckets.len()
            invariant
                self.wf(),
                *self == *old(self),
                i <= self.buckets@.len(),
                forall|k: int| 0 <= k < i ==> !self@.fits(len as nat, k),
                any_large_enough ==> 0 <= large < i && self@.slot_sizes[large] >= len,
                !any_large_enough ==> forall|k: int| 0 <= k < i ==> self@.slot_sizes[k] < len,
            decreases self.buckets@.len() - i,
        {
            if self.buckets[i].slot_size >= len {
                any_large_enough = true;
                proof {
                    large = i as int;
                }
                match self.find_free(i) {
                    Some(j) => {
                        let addr = StoreAddr { pool_idx: i as u16, packet_idx: j };
                        let ghost before = *self;
                        proof {
                            before.lemma_model(addr);
                            assert(self.buckets@[i as int].wf());
                            assert(self.buckets@[i as int].slots@[j as int].wf(self.buckets@[i as int].slot_size));
                        }
                        self.buckets[i].slots[j as usize].used = true;
                        self.buckets[i].slots[j as usize].len = len;
                        proof {
                            let slot = self.buckets@[i as int].slots@[j as int];
                            assert(slot.data@ == zeros(self.buckets@[i as int].slot_size as nat));
                            assert(slot.model().unwrap() =~= zeros(len as nat));
                            Self::lemma_put(&before, self, addr, Some(zeros(len as nat)));
                            assert(self.wf()) by {
                                assert forall|k: int| 0 <= k < self.buckets@.len() implies (
                                #[trigger] self.buckets@[k]).wf() by {
                                    assert(before.buckets@[k].wf());
                                    assert forall|m: int| 0 <= m < self.buckets@[k].slots@.len() implies (
                                    #[trigger] self.buckets@[k].slots@[m]).wf(self.buckets@[k].slot_size) by {
                                        assert(before.buckets@[k].slots@[m].wf(before.buckets@[k].slot_size));
                                    }
                                }
                            }
                        }
                        return Ok(addr);
                    },
                    None => {},
                }
            }
            i += 1;
        }
        if any_large_enough {
            Err(StoreError::OutOfSlots(len))
        } else {
            Err(StoreError::SlotSizeTooSmall(len))
        }
    }
}


impl PacketPool {
    proof fn lemma_wf_after(before: &Self, after: &Self, addr: StoreAddr)
        requires
            before.wf(),
            before@.valid(addr),
            after.buckets@.len() == before.buckets@.len(),
            forall|i: int|
                0 <= i < before.buckets@.len() ==> (#[trigger] after.buckets@[i]).slot_size
                    == before.buckets@[i].slot_size,
            forall|i: int|
                0 <= i < before.buckets@.len() ==> (#[trigger] after.buckets@[i]).slots@.len()
                    == before.buckets@[i].slots@.len(),
            forall|i: int, j: int|
                0 <= i < before.buckets@.len() && 0 <= j < before.buckets@[i].slots@.len() && !(i
                    == addr.pool_idx && j == addr.packet_idx) ==> (
                #[trigger] after.buckets@[i].slots@[j]) == before.buckets@[i].slots@[j],
            after.buckets@[addr.pool_idx as int].slots@[addr.packet_idx as int].wf(
                before.buckets@[addr.pool_idx as int].slot_size,
            ),
        ensures
            after.wf(),
    {
        assert forall|k: int| 0 <= k < after.buckets@.len() implies (#[trigger] after.buckets@[k]).wf() by {
            assert(before.buckets@[k].wf());
            assert forall|m: int| 0 <= m < after.buckets@[k].slots@.len() implies (
            #[trigger] after.buckets@[k].slots@[m]).wf(after.buckets@[k].slot_size) by {
                assert(before.buckets@[k].slots@[m].wf(before.buckets@[k].slot_size));
            }
        }
    }

    /// Looks `addr` up: `None` where it names an allocated slot, else the error.
    fn check(&self, addr: &StoreAddr) -> (r: Option<StoreError>)
        requires
            self.wf(),
        ensures
            r == self@.access_error(*addr),
    {
        proof {
            self.lemma_model(*addr);
        }
        if addr.pool_idx as usize >= self.buckets.len() {
            return Some(StoreError::UnknownAddress(*addr));
        }
        if addr.packet_idx as usize >= self.buckets[addr.pool_idx as usize].slots.len() {
            return Some(StoreError::UnknownAddress(*addr));
        }
        if !self.buckets[addr.pool_idx as usize].slots[addr.packet_idx as usize].used {
            return Some(StoreError::DoubleFree(*addr));
        }
        None
    }

    /// Replaces the payload at `addr` by `bytes`, which may not be longer than
    /// the payload that is there. The slot remembers the new length.
    pub fn write(&mut self, addr: &StoreAddr, bytes: &[u8]) -> (r: Result<(), StoreError>)
        requires
            old(self).wf(),
        ensures
            final(self).wf(),
            old(self)@.write_post(*addr, bytes@, r, final(self)@),
    {
        if let Some(e) = self.check(addr) {
            return Err(e);
        }
        let i = addr.pool_idx as usize;
        let j = addr.packet_idx as usize;
        let ghost before = *self;
        proof {
            before.lemma_model(*addr);
            assert(self.buckets@[i as int].wf());
            assert(self.buckets@[i as int].slots@[j as int].wf(self.buckets@[i as int].slot_size));
        }
        if bytes.len() > self.buckets[i].slots[j].len {
            return Err(StoreError::SlotSizeTooSmall(bytes.len()));
        }
        let mut k: usize = 0;
        while k < bytes.len()
            invariant
                k <= bytes@.len(),
                i == addr.pool_idx,
                j == addr.packet_idx,
                before@.valid(*addr),
                bytes@.len() <= before.buckets@[i as int].slots@[j as int].len,
                before.buckets@[i as int].slots@[j as int].len <= before.buckets@[i as int].slot_size,
                self.buckets@.len() == before.buckets@.len(),
                forall|a: int|
                    0 <= a < before.buckets@.len() ==> (#[trigger] self.buckets@[a]).slot_size
                        == before.buckets@[a].slot_size,
                forall|a: int|
                    0 <= a < before.buckets@.len() ==> (#[trigger] self.buckets@[a]).slots@.len()
                        == before.buckets@[a].slots@.len(),
                forall|a: int, b: int|
                    0 <= a < before.buckets@.len() && 0 <= b < before.buckets@[a].slots@.len() && !(a
                        == i && b == j) ==> (#[trigger] self.buckets@[a].slots@[b])
                        == before.buckets@[a].slots@[b],
                self.buckets@[i as int].slots@[j as int].used,
                self.buckets@[i as int].slots@[j as int].len == before.buckets@[i as int].slots@[j as int].len,
                self.buckets@[i as int].slots@[j as int].data@.len() == before.buckets@[i as int].slot_size,
                self.buckets@[i as int].slots@[j as int].data@.subrange(0, k as int) == bytes@.subrange(
                    0,
                    k as int,
                ),
            decreases bytes@.len() - k,
        {
            let ghost prev = self.buckets@[i as int].slots@[j as int].data@;
            self.buckets[i].slots[j].data[k] = bytes[k];
            proof {
                let now = self.buckets@[i as int].slots@[j as int].data@;
                assert(now == prev.update(k as int, bytes@[k as int]));
                assert(now.subrange(0, k as int + 1) =~= prev.subrange(0, k as int).push(bytes@[k as int]));
                assert(bytes@.subrange(0, k as int + 1) =~= bytes@.subrange(0, k as int).push(bytes@[k as int]));
            }
            k += 1;
        }
        self.buckets[i].slots[j].len = bytes.len();
        proof {
            assert(bytes@.subrange(0, bytes@.len() as int) =~= bytes@);
            Self::lemma_put(&before, self, *addr, Some(bytes@));
            Self::lemma_wf_after(&before, self, *addr);
        }
        Ok(())
    }

    /// The payload at `addr`.
    pub fn read(&self, addr: &StoreAddr) -> (r: Result<&[u8], StoreError>)
        requires
            self.wf(),
        ensures
            match (r, self@.read_result(*addr)) {
                (Ok(buf), Ok(payload)) => buf@ == payload,
                (Err(e), Err(expected)) => e == expected,
                _ => false,
            },
    {
        if let Some(e) = self.check(addr) {
            return Err(e);
        }
        let i = addr.pool_idx as usize;
        let j = addr.packet_idx as usize;
        proof {
            self.lemma_model(*addr);
            assert(self.buckets@[i as int].wf());
            assert(self.buckets@[i as int].slots@[j as int].wf(self.buckets@[i as int].slot_size));
        }
        let slot = &self.buckets[i].slots[j];
        Ok(vstd::slice::slice_subrange(slot.data.as_slice(), 0, slot.len))
    }

    /// The length of the payload at `addr`.
    pub fn len_packed(&self, addr: &StoreAddr) -> (r: Result<usize, StoreError>)
        requires
            self.wf(),
        ensures
            match (r, self@.read_result(*addr)) {
                (Ok(n), Ok(payload)) => n == payload.len(),
                (Err(e), Err(expected)) => e == expected,
                _ => false,
            },
    {
        if let Some(e) = self.check(addr) {
            return Err(e);
        }
        let i = addr.pool_idx as usize;
        let j = addr.packet_idx as usize;
        proof {
            self.lemma_model(*addr);
            assert(self.buckets@[i as int].wf());
            assert(self.buckets@[i as int].slots@[j as int].wf(self.buckets@[i as int].slot_size));
        }
        Ok(self.buckets[i].slots[j].len)
    }

    /// Whether the slot at `addr` is allocated. An address that names no slot
    /// is an error.
    pub fn has_element_at(&self, addr: &StoreAddr) -> (r: Result<bool, StoreError>)
        requires
            self.wf(),
        ensures
            r == (if self@.valid(*addr) {
                Ok::<bool, StoreError>(self@.at(*addr).is_some())
            } else {
                Err::<bool, StoreError>(StoreError::UnknownAddress(*addr))
            }),
    {
        match self.check(addr) {
            None => Ok(true),
            Some(StoreError::DoubleFree(_)) => Ok(false),
            Some(e) => Err(e),
        }
    }

    /// Gives the slot at `addr` back. Its bytes are set to zero, so that the
    /// next payload there starts from zeroes. A slot that is already free is
    /// refused.
    pub fn free(&mut self, addr: &StoreAddr) -> (r: Result<(), StoreError>)
        requires
            old(self).wf(),
        ensures
            final(self).wf(),
            old(self)@.free_post(*addr, r, final(self)@),
    {
        if let Some(e) = self.check(addr) {
            return Err(e);
        }
        let i = addr.pool_idx as usize;
        let j = addr.packet_idx as usize;
        let ghost before = *self;
        proof {
            before.lemma_model(*addr);
            assert(self.buckets@[i as int].wf());
            assert(self.buckets@[i as int].slots@[j as int].wf(self.buckets@[i as int].slot_size));
        }
        let size = self.buckets[i].slot_size;
        self.buckets[i].slots[j] = Slot { used: false, len: 0, data: zeroed(size) };
        proof {
            Self::lemma_put(&before, self, *addr, None);
            Self::lemma_wf_after(&before, self, *addr);
        }
        Ok(())
    }

    /// Reserves a slot for `data` and writes it there.
    pub fn add(&mut self, data: &[u8]) -> (r: Result<StoreAddr, StoreError>)
        requires
            old(self).wf(),
        ensures
            final(self).wf(),
            match r {
                Ok(addr) => {
                    &&& old(self)@.reserve_post(data@.len(), Ok(addr), old(self)@.put(addr, Some(zeros(data@.len()))))
                    &&& final(self)@ == old(self)@.put(addr, Some(data@))
                },
                Err(e) => old(self)@.reserve_post(data@.len(), Err(e), final(self)@),
            },
    {
        let addr = self.free_element(data.len())?;
        let ghost mid = self@;
        let w = self.write(&addr, data);
        proof {
            assert(mid.at(addr) == Some(zeros(data@.len())));
            old(self)@.lemma_put_twice(addr, Some(zeros(data@.len())), Some(data@));
        }
        Ok(addr)
    }
}


impl PacketPool {
    /// The payload at `addr`, open for changes in place. Its length stays.
    pub fn modify(&mut self, addr: &StoreAddr) -> (r: Result<&mut [u8], StoreError>)
        requires
            old(self).wf(),
        ensures
            match r {
                Ok(buf) => {
                    &&& old(self)@.access_error(*addr).is_none()
                    &&& buf@ == old(self)@.at(*addr).unwrap()
                    &&& final(buf)@.len() == buf@.len() ==> {
                        &&& final(self).wf()
                        &&& final(self)@.slot_sizes =~= old(self)@.slot_sizes
                        &&& final(self)@.slots =~~= old(self)@.put(*addr, Some(final(buf)@)).slots
                    }
                },
                Err(e) => {
                    &&& old(self)@.access_error(*addr) == Some(e)
                    &&& final(self)@ == old(self)@
                    &&& final(self).wf()
                },
            },
    {
        if let Some(e) = self.check(addr) {
            return Err(e);
        }
        let i = addr.pool_idx as usize;
        let j = addr.packet_idx as usize;
        proof {
            self.lemma_model(*addr);
            assert(self.buckets@[i as int].wf());
            assert(self.buckets@[i as int].slots@[j as int].wf(self.buckets@[i as int].slot_size));
        }
        let len = self.buckets[i].slots[j].len;
        let slot = &mut self.buckets[i].slots[j];
        let (head, _tail) = slot.data.as_mut_slice().split_at_mut(len);
        Ok(head)
    }
}


/// Round trip: bytes written to a slot that was just reserved for them are
/// what a read of that slot returns.
pub proof fn law_round_trip(
    start: PoolModel,
    n: nat,
    a: StoreAddr,
    mid: PoolModel,
    bytes: Seq<u8>,
    w: Result<(), StoreError>,
    end: PoolModel,
)
    requires
        start.reserve_post(n, Ok(a), mid),
        bytes.len() <= n,
        mid.write_post(a, bytes, w, end),
    ensures
        w.is_ok(),
        end.read_result(a) == Ok::<Seq<u8>, StoreError>(bytes),
{
    start.lemma_put_twice(a, Some(zeros(n)), Some(bytes));
    mid.lemma_put_twice(a, Some(bytes), Some(bytes));
}

/// A payload stays as it is while other slots are reserved, written or freed:
/// until its own slot is written or freed, a read returns the same bytes.
pub proof fn law_payload_stays(
    p: PoolModel,
    a: StoreAddr,
    b: StoreAddr,
    n: nat,
    bytes: Seq<u8>,
    q: PoolModel,
)
    requires
        p.valid(a),
        p.at(a).is_some(),
        ({
            ||| p.reserve_post(n, Ok(b), q)
            ||| exists|e: StoreError| p.reserve_post(n, Err(e), q)
            ||| (b != a && exists|w: Result<(), StoreError>| p.write_post(b, bytes, w, q))
            ||| (b != a && exists|f: Result<(), StoreError>| p.free_post(b, f, q))
        }),
    ensures
        q.read_result(a) == p.read_result(a),
{
}

/// Isolation: a slot that is reserved after a free shows zeroes, whatever the
/// freed slot held.
pub proof fn law_isolation(
    start: PoolModel,
    a: StoreAddr,
    mid: PoolModel,
    n: nat,
    b: StoreAddr,
    end: PoolModel,
)
    requires
        start.free_post(a, Ok(()), mid),
        mid.reserve_post(n, Ok(b), end),
    ensures
        end.read_result(b) == Ok::<Seq<u8>, StoreError>(zeros(n)),
{
    mid.lemma_put_twice(b, Some(zeros(n)), Some(zeros(n)));
}


/// Access to a pool that may be shared with others.
///
/// What a shared pool holds can change between two calls, so the contract says
/// little about it. `added` is the list of what was added through this handle
/// with success, oldest first.
pub trait PoolProvider {
    open spec fn added(&self) -> Seq<(StoreAddr, Seq<u8>)> {
        arbitrary()
    }

    /// The invariant of the handle.
    open spec fn usable(&self) -> bool {
        true
    }

    /// Nobody but the holder of this handle changes the pool. What the pool
    /// holds is then `model()`, and every access does to it what the same
    /// access does to a [`PacketPool`].
    open spec fn exclusive(&self) -> bool {
        false
    }

    /// What the pool holds, where the handle is exclusive.
    open spec fn model(&self) -> PoolModel {
        arbitrary()
    }

    /// Whether the lock that guards the pool was found poisoned: someone
    /// failed while holding it. The pool can still be used.
    fn poisoned(&self) -> bool;

    /// Stores `data` in a free slot and returns its address.
    fn add(&mut self, data: &[u8]) -> (r: Result<StoreAddr, StoreError>)
        requires
            old(self).usable(),
        ensures
            final(self).usable(),
            match r {
                Ok(addr) => final(self).added() == old(self).added().push((addr, data@)),
                Err(_) => final(self).added() == old(self).added(),
            },
            old(self).exclusive() ==> final(self).exclusive() && old(self).model().add_post(
                data@,
                r,
                final(self).model(),
            ),
    ;

    /// Copies the payload at `addr` to the front of `buf` and returns its
    /// length. A payload that does not fit `buf` is an error.
    fn read_into(&mut self, addr: &StoreAddr, buf: &mut [u8]) -> (r: Result<usize, StoreError>)
        requires
            old(self).usable(),
        ensures
            final(self).usable(),
            final(buf)@.len() == old(buf)@.len(),
            final(self).added() == old(self).added(),
            r matches Ok(n) ==> n <= old(buf)@.len(),
            r.is_err() ==> final(buf)@ == old(buf)@,
            old(self).exclusive() ==> final(self).exclusive() && final(self).model() == old(
                self,
            ).model() && old(self).model().read_into_post(*addr, old(buf)@, final(buf)@, r),
    ;

    /// Replaces the payload at `addr` by `data`.
    fn overwrite(&mut self, addr: &StoreAddr, data: &[u8]) -> (r: Result<(), StoreError>)
        requires
            old(self).usable(),
        ensures
            final(self).usable(),
            final(self).added() == old(self).added(),
            old(self).exclusive() ==> final(self).exclusive() && old(self).model().write_post(
                *addr,
                data@,
                r,
                final(self).model(),
            ),
    ;

    /// Gives the slot at `addr` back.
    fn delete(&mut self, addr: &StoreAddr) -> (r: Result<(), StoreError>)
        requires
            old(self).usable(),
        ensures
            final(self).usable(),
            final(self).added() == old(self).added(),
            old(self).exclusive() ==> final(self).exclusive() && old(self).model().free_post(
                *addr,
                r,
                final(self).model(),
            ),
    ;
}

/// Round trip through a handle: what was added to a pool that nobody else
/// changes is what a read at the address returns, until the slot is written
/// or freed.
pub proof fn law_added_is_read(before: PoolModel, data: Seq<u8>, addr: StoreAddr, after: PoolModel)
    requires
        before.add_post(data, Ok(addr), after),
    ensures
        after.read_result(addr) == Ok::<Seq<u8>, StoreError>(data),
        before.at(addr).is_none(),
{
    before.lemma_put_twice(addr, Some(data), Some(data));
}

/// A pool that is used from one place only, with a log of what was added.
pub struct LocalPool {
    pool: PacketPool,
    log: Ghost<Seq<(StoreAddr, Seq<u8>)>>,
}

impl View for LocalPool {
    type V = PoolModel;

    closed spec fn view(&self) -> PoolModel {
        self.pool@
    }
}

impl LocalPool {
    pub fn new(cfg: &PacketPoolCfg) -> (r: Self)
        requires
            cfg.wf(),
        ensures
            r.usable(),
            r.added() == Seq::<(StoreAddr, Seq<u8>)>::empty(),
            r@.slot_sizes == Seq::new(cfg@.len(), |i: int| cfg@[i].slot_bytes as nat),
            r@.slots == Seq::new(
                cfg@.len(),
                |i: int| Seq::new(cfg@[i].num_slots as nat, |j: int| None::<Seq<u8>>),
            ),
    {
        LocalPool { pool: PacketPool::new(cfg), log: Ghost(Seq::empty()) }
    }

    /// The pool behind the handle.
    pub fn pool(&self) -> (r: &PacketPool)
        requires
            self.usable(),
        ensures
            r.wf(),
            r@ == self@,
    {
        &self.pool
    }
}

impl PoolProvider for LocalPool {
    closed spec fn added(&self) -> Seq<(StoreAddr, Seq<u8>)> {
        self.log@
    }

    closed spec fn usable(&self) -> bool {
        self.pool.wf()
    }

    /// A pool of this kind has one holder.
    open spec fn exclusive(&self) -> bool {
        true
    }

    closed spec fn model(&self) -> PoolModel {
        self.pool@
    }

    fn poisoned(&self) -> (r: bool)
        ensures
            !r,
    {
        false
    }

    fn add(&mut self, data: &[u8]) -> (r: Result<StoreAddr, StoreError>)
        ensures
            match r {
                Ok(addr) => final(self)@ == old(self)@.put(addr, Some(data@)) && old(self)@.reserve_post(
                    data@.len(),
                    Ok(addr),
                    old(self)@.put(addr, Some(zeros(data@.len()))),
                ),
                Err(e) => old(self)@.reserve_post(data@.len(), Err(e), final(self)@),
            },
    {
        let r = self.pool.add(data);
        if let Ok(addr) = r {
            proof {
                self.log@ = self.log@.push((addr, data@));
            }
        }
        r
    }

    fn read_into(&mut self, addr: &StoreAddr, buf: &mut [u8]) -> (r: Result<usize, StoreError>)
        ensures
            final(self)@ == old(self)@,
            match old(self)@.read_result(*addr) {
                Ok(payload) => if payload.len() <= old(buf)@.len() {
                    r == Ok::<usize, StoreError>(payload.len() as usize) && final(buf)@ == payload + old(
                        buf,
                    )@.subrange(payload.len() as int, old(buf)@.len() as int)
                } else {
                    r == Err::<usize, StoreError>(StoreError::SlotSizeTooSmall(payload.len() as usize))
                },
                Err(e) => r == Err::<usize, StoreError>(e),
            },
    {
        let payload = self.pool.read(addr)?;
        if payload.len() > buf.len() {
            return Err(StoreError::SlotSizeTooSmall(payload.len()));
        }
        let n = payload.len();
        crate::spacepackets::copy_into(buf, 0, payload);
        assert(buf@ =~= payload@ + old(buf)@.subrange(payload@.len() as int, old(buf)@.len() as int));
        Ok(n)
    }

    fn overwrite(&mut self, addr: &StoreAddr, data: &[u8]) -> (r: Result<(), StoreError>)
        ensures
            old(self)@.write_post(*addr, data@, r, final(self)@),
    {
        self.pool.write(addr, data)
    }

    fn delete(&mut self, addr: &StoreAddr) -> (r: Result<(), StoreError>)
        ensures
            old(self)@.free_post(*addr, r, final(self)@),
    {
        self.pool.free(addr)
    }
}

} // verus!
