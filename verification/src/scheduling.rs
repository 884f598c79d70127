//! The telecommand scheduler of PUS service 11.
//!
//! Telecommands wait in the pool; the scheduler keeps their addresses by
//! release time. When time has moved on, the telecommands that are due are
//! released in the order of their release times, and for one release time in
//! the order in which they were inserted.
use crate::pool::{PoolProvider, StoreAddr, StoreError};
use crate::spacepackets::PusError;
use crate::tc::PusTc;
use crate::time::TimeProvider;
use crate::verification::TimestampError;
use crate::time::{unix_now, StdTimestampError, UnixTimestamp};
use vstd::prelude::*;

verus! {

/// What a scheduler holds.
pub struct SchedulerModel {
    /// Release times in milliseconds, ascending, each with its addresses.
    pub entries: Seq<(int, Seq<StoreAddr>)>,
    /// The current time in milliseconds.
    pub current_time: int,
    /// How far in the future a release time may lie, in milliseconds.
    pub margin: int,
    pub enabled: bool,
}

/// The release times are strictly ascending.
pub open spec fn ascending(entries: Seq<(int, Seq<StoreAddr>)>) -> bool {
    forall|i: int, j: int| 0 <= i < j < entries.len() ==> entries[i].0 < entries[j].0
}

/// The number of addresses in `entries`.
pub open spec fn scheduled(entries: Seq<(int, Seq<StoreAddr>)>) -> nat
    decreases entries.len(),
{
    if entries.len() == 0 {
        0
    } else {
        scheduled(entries.drop_last()) + entries.last().1.len()
    }
}

/// The addresses whose release time is not after `now`, in the order of `entries`.
pub open spec fn due_addrs(entries: Seq<(int, Seq<StoreAddr>)>, now: int) -> Seq<StoreAddr>
    decreases entries.len(),
{
    if entries.len() == 0 {
        Seq::empty()
    } else if entries.last().0 <= now {
        due_addrs(entries.drop_last(), now) + entries.last().1
    } else {
        due_addrs(entries.drop_last(), now)
    }
}

/// The entries whose release time is after `now`.
pub open spec fn later_entries(entries: Seq<(int, Seq<StoreAddr>)>, now: int) -> Seq<
    (int, Seq<StoreAddr>),
>
    decreases entries.len(),
{
    if entries.len() == 0 {
        Seq::empty()
    } else if entries.last().0 > now {
        later_entries(entries.drop_last(), now).push(entries.last())
    } else {
        later_entries(entries.drop_last(), now)
    }
}

/// `after` is `before` with one more address for the release time `key`: at
/// the end of the list of that release time, or in a new entry at the place
/// that keeps the release times ascending.
pub open spec fn inserted(
    before: Seq<(int, Seq<StoreAddr>)>,
    key: int,
    addr: StoreAddr,
    after: Seq<(int, Seq<StoreAddr>)>,
) -> bool {
    exists|pos: int|
        {
            &&& 0 <= pos <= before.len()
            &&& forall|i: int| 0 <= i < pos ==> (#[trigger] before[i]).0 < key
            &&& pos == before.len() || before[pos].0 >= key
            &&& after == (if pos < before.len() && before[pos].0 == key {
                before.update(pos, (key, before[pos].1.push(addr)))
            } else {
                before.insert(pos, (key, seq![addr]))
            })
        }
}

/// The count as the scheduler gives it: the largest `u64` where it is larger.
pub open spec fn clamp_u64(n: nat) -> u64 {
    if n <= u64::MAX {
        n as u64
    } else {
        u64::MAX
    }
}

/// Takes the telecommands that the scheduler releases.
///
/// `released` is the list of what was released, oldest first: whether the
/// scheduler was enabled, and the address.
pub trait TcReleaser {
    open spec fn released(&self) -> Seq<(bool, StoreAddr)> {
        arbitrary()
    }

    /// The releaser can be called.
    open spec fn ready(&self) -> bool {
        true
    }

    fn release(&mut self, enabled: bool, addr: &StoreAddr)
        requires
            old(self).ready(),
        ensures
            final(self).ready(),
            final(self).released() == old(self).released().push((enabled, *addr)),
    ;
}

/// A releaser that hands each release to a closure.
pub struct ClosureReleaser<R: FnMut(bool, &StoreAddr)> {
    call: R,
    log: Ghost<Seq<(bool, StoreAddr)>>,
}

impl<R: FnMut(bool, &StoreAddr)> ClosureReleaser<R> {
    /// A releaser that calls `call` for each release, and has released
    /// nothing yet.
    pub fn new(call: R) -> (r: Self)
        requires
            forall|enabled: bool, addr: &StoreAddr| call_requires(call, (enabled, addr)),
        ensures
            r.ready(),
            r.released() == Seq::<(bool, StoreAddr)>::empty(),
    {
        ClosureReleaser { call, log: Ghost(Seq::empty()) }
    }
}

impl<R: FnMut(bool, &StoreAddr)> TcReleaser for ClosureReleaser<R> {
    closed spec fn released(&self) -> Seq<(bool, StoreAddr)> {
        self.log@
    }

    closed spec fn ready(&self) -> bool {
        forall|enabled: bool, addr: &StoreAddr| call_requires(self.call, (enabled, addr))
    }

    fn release(&mut self, enabled: bool, addr: &StoreAddr) {
        (self.call)(enabled, addr);
        proof {
            self.log@ = self.log@.push((enabled, *addr));
        }
    }
}

/// The releases of `addrs`, each with the flag `enabled`.
pub open spec fn releases(enabled: bool, addrs: Seq<StoreAddr>) -> Seq<(bool, StoreAddr)> {
    Seq::new(addrs.len(), |i: int| (enabled, addrs[i]))
}

/// The scheduler.
pub struct PusScheduler {
    tc_map: Vec<(UnixTimestamp, Vec<StoreAddr>)>,
    current_time: UnixTimestamp,
    time_margin_millis: u64,
    enabled: bool,
}

impl View for PusScheduler {
    type V = SchedulerModel;

    closed spec fn view(&self) -> SchedulerModel {
        SchedulerModel {
            entries: Seq::new(
                self.tc_map@.len(),
                |i: int| (self.tc_map@[i].0.millis(), self.tc_map@[i].1@),
            ),
            current_time: self.current_time.millis(),
            margin: self.time_margin_millis as int,
            enabled: self.enabled,
        }
    }
}

impl PusScheduler {
    /// The invariant of the scheduler: the release times are ascending.
    pub closed spec fn wf(&self) -> bool {
        &&& ascending(self@.entries)
        &&& self.current_time.wf()
        &&& forall|i: int| 0 <= i < self.tc_map@.len() ==> (#[trigger] self.tc_map@[i]).0.wf()
    }

    /// A scheduler that is enabled and holds nothing. A release time may lie
    /// `time_margin_millis` milliseconds after the current time.
    pub fn new(init_current_time: UnixTimestamp, time_margin_millis: u64) -> (r: Self)
        requires
            init_current_time.wf(),
        ensures
            r.wf(),
            r@ == (SchedulerModel {
                entries: Seq::empty(),
                current_time: init_current_time.millis(),
                margin: time_margin_millis as int,
                enabled: true,
            }),
    {
        let r = PusScheduler {
            tc_map: Vec::new(),
            current_time: init_current_time,
            time_margin_millis,
            enabled: true,
        };
        assert(r@.entries =~= Seq::empty());
        r
    }

    /// The number of telecommands that wait for their release.
    pub fn num_scheduled_telecommands(&self) -> (r: u64)
        ensures
            r == clamp_u64(scheduled(self@.entries)),
    {
        let mut num_entries: u64 = 0;
        let mut i: usize = 0;
        while i < self.tc_map.len()
            invariant
                i <= self.tc_map@.len(),
                num_entries == clamp_u64(scheduled(self@.entries.subrange(0, i as int))),
            decreases self.tc_map@.len() - i,
        {
            let n = self.tc_map[i].1.len() as u64;
            proof {
                assert(self@.entries.subrange(0, i as int + 1).drop_last() =~= self@.entries.subrange(
                    0,
                    i as int,
                ));
            }
            num_entries = if n > u64::MAX - num_entries {
                u64::MAX
            } else {
                num_entries + n
            };
            i += 1;
        }
        assert(self@.entries.subrange(0, self.tc_map@.len() as int) =~= self@.entries);
        num_entries
    }

    pub fn is_enabled(&self) -> (r: bool)
        ensures
            r == self@.enabled,
    {
        self.enabled
    }

    pub fn enable(&mut self)
        ensures
            final(self)@ == (SchedulerModel { enabled: true, ..old(self)@ }),
            old(self).wf() ==> final(self).wf(),
    {
        self.enabled = true;
    }

    pub fn disable(&mut self)
        ensures
            final(self)@ == (SchedulerModel { enabled: false, ..old(self)@ }),
            old(self).wf() ==> final(self).wf(),
    {
        self.enabled = false;
    }

    /// Disables the scheduler and drops everything that waits.
    pub fn reset(&mut self)
        ensures
            final(self)@ == (SchedulerModel { enabled: false, entries: Seq::empty(), ..old(self)@ }),
            old(self).wf() ==> final(self).wf(),
    {
        self.enabled = false;
        self.tc_map.clear();
        assert(self@.entries =~= Seq::empty());
    }

    pub fn update_time(&mut self, current_time: UnixTimestamp)
        requires
            current_time.wf(),
        ensures
            final(self)@ == (SchedulerModel { current_time: current_time.millis(), ..old(self)@ }),
            old(self).wf() ==> final(self).wf(),
    {
        self.current_time = current_time;
    }

    pub fn current_time(&self) -> (r: &UnixTimestamp)
        ensures
            r.millis() == self@.current_time,
    {
        &self.current_time
    }

    /// Sets the current time to the time that the system clock shows, as
    /// [`Self::update_time`] does for a time that is given. Whatever the clock
    /// shows, the time then does not lie before the Unix epoch, and nothing
    /// else changes. After an error the scheduler is as before.
    pub fn update_time_from_now(&mut self) -> (r: Result<(), StdTimestampError>)
        ensures
            old(self).wf() ==> final(self).wf(),
            final(self)@.entries == old(self)@.entries,
            final(self)@.margin == old(self)@.margin,
            final(self)@.enabled == old(self)@.enabled,
            r.is_ok() ==> exists|now: UnixTimestamp|
                now.wf() && now.unix_seconds >= 0 && final(self)@.current_time == #[trigger] now.millis(),
            r.is_err() ==> final(self)@ == old(self)@,
    {
        match unix_now() {
            Ok(now) => {
                self.update_time(now);
                Ok(())
            },
            Err(e) => Err(e),
        }
    }

    /// Schedules the telecommand at `addr` for release at `time_stamp`. A
    /// release time that is later than the current time by more than the margin
    /// is refused: the result is `false` and nothing changes.
    pub fn insert_tc(&mut self, time_stamp: UnixTimestamp, addr: StoreAddr) -> (r: bool)
        requires
            old(self).wf(),
            time_stamp.wf(),
        ensures
            final(self).wf(),
            r == (time_stamp.millis() <= old(self)@.current_time + old(self)@.margin),
            final(self)@.current_time == old(self)@.current_time,
            final(self)@.margin == old(self)@.margin,
            final(self)@.enabled == old(self)@.enabled,
            if r {
                inserted(old(self)@.entries, time_stamp.millis(), addr, final(self)@.entries)
            } else {
                final(self)@.entries == old(self)@.entries
            },
    {
        if time_stamp.later_than_by(&self.current_time, self.time_margin_millis) {
            return false;
        }
        let mut pos: usize = 0;
        while pos < self.tc_map.len() && !time_stamp.not_after(&self.tc_map[pos].0)
            invariant
                self.wf(),
                *self == *old(self),
                time_stamp.wf(),
                pos <= self.tc_map@.len(),
                forall|i: int| 0 <= i < pos ==> (#[trigger] self@.entries[i]).0 < time_stamp.millis(),
            decreases self.tc_map@.len() - pos,
        {
            pos += 1;
        }
        let ghost before = self@.entries;
        let ghost key = time_stamp.millis();
        if pos < self.tc_map.len() && self.tc_map[pos].0.not_after(&time_stamp) {
            self.tc_map[pos].1.push(addr);
            proof {
                assert(before[pos as int].0 == key);
                assert(self@.entries =~= before.update(pos as int, (key, before[pos as int].1.push(addr))));
                assert(self.tc_map@[pos as int].0 == old(self).tc_map@[pos as int].0);
            }
        } else {
            let mut list: Vec<StoreAddr> = Vec::new();
            list.push(addr);
            self.tc_map.insert(pos, (time_stamp, list));
            proof {
                assert(self@.entries =~= before.insert(pos as int, (key, seq![addr])));
                assert forall|i: int, j: int| 0 <= i < j < self@.entries.len() implies self@.entries[i].0
                    < self@.entries[j].0 by {
                    let a = if i < pos { i } else { i - 1 };
                    let b = if j < pos { j } else { j - 1 };
                    if i != pos && j != pos {
                        assert(before[a].0 < before[b].0);
                    } else if i == pos {
                        assert(before[pos as int].0 <= before[b].0);
                    } else {
                        assert(before[a].0 < key);
                    }
                }
            }
        }
        true
    }

    /// The addresses of the telecommands that are due, in the order of their release.
    pub fn telecommands_to_release(&self) -> (r: Vec<StoreAddr>)
        ensures
            r@ == due_addrs(self@.entries, self@.current_time),
    {
        let mut out: Vec<StoreAddr> = Vec::new();
        let mut i: usize = 0;
        while i < self.tc_map.len()
            invariant
                i <= self.tc_map@.len(),
                out@ == due_addrs(self@.entries.subrange(0, i as int), self@.current_time),
            decreases self.tc_map@.len() - i,
        {
            proof {
                assert(self@.entries.subrange(0, i as int + 1).drop_last() =~= self@.entries.subrange(
                    0,
                    i as int,
                ));
            }
            if self.due(i) {
                let mut k: usize = 0;
                let ghost start = out@;
                while k < self.tc_map[i as usize].1.len()
                    invariant
                        i < self.tc_map@.len(),
                        k <= self.tc_map@[i as int].1@.len(),
                        out@ == start + self.tc_map@[i as int].1@.subrange(0, k as int),
                    decreases self.tc_map@[i as int].1@.len() - k,
                {
                    out.push(self.tc_map[i].1[k]);
                    assert(out@ =~= start + self.tc_map@[i as int].1@.subrange(0, k as int + 1));
                    k += 1;
                }
                assert(self.tc_map@[i as int].1@.subrange(0, k as int) =~= self.tc_map@[i as int].1@);
            }
            i += 1;
        }
        assert(self@.entries.subrange(0, self.tc_map@.len() as int) =~= self@.entries);
        out
    }

    /// Whether entry `i` is due.
    fn due(&self, i: usize) -> (r: bool)
        requires
            i < self.tc_map@.len(),
        ensures
            r == (self@.entries[i as int].0 <= self@.current_time),
    {
        let t = &self.tc_map[i].0;
        let a: i128 = t.unix_seconds as i128 * 1000 + t.subsecond_millis as i128;
        let b: i128 = self.current_time.unix_seconds as i128 * 1000
            + self.current_time.subsecond_millis as i128;
        a <= b
    }

    /// Drops the entries that are due.
    fn drop_due(&mut self)
        requires
            old(self).wf(),
        ensures
            final(self).wf(),
            final(self)@ == (SchedulerModel {
                entries: later_entries(old(self)@.entries, old(self)@.current_time),
                ..old(self)@
            }),
    {
        let mut kept: Vec<(UnixTimestamp, Vec<StoreAddr>)> = Vec::new();
        let mut rest: Vec<(UnixTimestamp, Vec<StoreAddr>)> = Vec::new();
        core::mem::swap(&mut rest, &mut self.tc_map);
        let ghost all = old(self)@.entries;
        let ghost now = old(self)@.current_time;
        let ghost source = old(self).tc_map@;
        let mut i: usize = 0;
        let n = rest.len();
        assert(source.len() == n);
        let mut taken: Vec<(UnixTimestamp, Vec<StoreAddr>)> = Vec::new();
        // The entries are taken from the back, so that none has to be copied.
        while rest.len() > 0
            invariant
                rest@.len() + taken@.len() == source.len(),
                forall|k: int| 0 <= k < rest@.len() ==> rest@[k] == source[k],
                forall|k: int|
                    0 <= k < taken@.len() ==> (#[trigger] taken@[k]) == source[source.len() - 1 - k],
            decreases rest@.len(),
        {
            let e = rest.pop().unwrap();
            taken.push(e);
        }
        while taken.len() > 0
            invariant
                old(self).wf(),
                source == old(self).tc_map@,
                all == old(self)@.entries,
                now == old(self)@.current_time,
                self.current_time == old(self).current_time,
                self.time_margin_millis == old(self).time_margin_millis,
                self.enabled == old(self).enabled,
                i + taken@.len() == source.len(),
                source.len() == n,
                forall|k: int|
                    0 <= k < taken@.len() ==> (#[trigger] taken@[k]) == source[source.len() - 1 - k],
                kept@.len() <= i,
                Seq::new(kept@.len(), |k: int| (kept@[k].0.millis(), kept@[k].1@)) == later_entries(
                    all.subrange(0, i as int),
                    now,
                ),
                forall|k: int| 0 <= k < kept@.len() ==> (#[trigger] kept@[k]).0.wf(),
            decreases taken@.len(),
        {
            let e = taken.pop().unwrap();
            proof {
                assert(e == source[i as int]);
                assert(all.subrange(0, i as int + 1).drop_last() =~= all.subrange(0, i as int));
                assert(all.subrange(0, i as int + 1).last() == all[i as int]);
                assert(old(self).tc_map@[i as int].0.wf());
            }
            let a: i128 = e.0.unix_seconds as i128 * 1000 + e.0.subsecond_millis as i128;
            let b: i128 = self.current_time.unix_seconds as i128 * 1000
                + self.current_time.subsecond_millis as i128;
            let ghost shown = Seq::new(kept@.len(), |k: int| (kept@[k].0.millis(), kept@[k].1@));
            if a > b {
                kept.push(e);
                assert(Seq::new(kept@.len(), |k: int| (kept@[k].0.millis(), kept@[k].1@)) =~= shown.push(
                    all[i as int],
                ));
            }
            i += 1;
        }
        self.tc_map = kept;
        proof {
            assert(all.subrange(0, source.len() as int) =~= all);
            assert(self@.entries =~= later_entries(all, now));
            lemma_later(all, now);
        }
    }

    /// Releases the telecommands that are due to a closure: it is called for
    /// each of them with the address and with whether the scheduler is
    /// enabled, as [`Self::release_telecommands_to`] calls a
    /// [`ClosureReleaser`] made of it. Returns what was released, in the order
    /// of the calls. Afterwards only the entries with a release time after the
    /// current time are left.
    pub fn release_telecommands<R: FnMut(bool, &StoreAddr)>(&mut self, releaser: R) -> (r: Ghost<
        Seq<(bool, StoreAddr)>,
    >)
        requires
            old(self).wf(),
            forall|enabled: bool, addr: &StoreAddr| call_requires(releaser, (enabled, addr)),
        ensures
            final(self).wf(),
            final(self)@ == (SchedulerModel {
                entries: later_entries(old(self)@.entries, old(self)@.current_time),
                ..old(self)@
            }),
            r@ == releases(
                old(self)@.enabled,
                due_addrs(old(self)@.entries, old(self)@.current_time),
            ),
    {
        let mut adapter = ClosureReleaser::new(releaser);
        self.release_telecommands_to(&mut adapter);
        proof {
            assert(Seq::<(bool, StoreAddr)>::empty() + adapter.released() =~= adapter.released());
        }
        Ghost(adapter.released())
    }

    /// The release times of a scheduler that is in order are ascending: what
    /// [`lemma_later`] and [`law_release`] ask for.
    pub proof fn lemma_ascending(&self)
        requires
            self.wf(),
        ensures
            ascending(self@.entries),
    {
    }

    /// Releases the telecommands that are due to a releaser that keeps a
    /// log: the log grows by the due telecommands in the order of their
    /// release, each with whether the scheduler is enabled. Afterwards only the
    /// entries with a release time after the current time are left.
    pub fn release_telecommands_to<R: TcReleaser>(&mut self, releaser: &mut R)
        requires
            old(self).wf(),
            old(releaser).ready(),
        ensures
            final(self).wf(),
            final(releaser).ready(),
            final(self)@ == (SchedulerModel {
                entries: later_entries(old(self)@.entries, old(self)@.current_time),
                ..old(self)@
            }),
            final(releaser).released() == old(releaser).released() + releases(
                old(self)@.enabled,
                due_addrs(old(self)@.entries, old(self)@.current_time),
            ),
    {
        let due = self.telecommands_to_release();
        let mut i: usize = 0;
        assert(old(releaser).released() + releases(self@.enabled, due@.subrange(0, 0)) =~= old(
            releaser,
        ).released());
        while i < due.len()
            invariant
                i <= due@.len(),
                *self == *old(self),
                releaser.ready(),
                releaser.released() == old(releaser).released() + releases(
                    self@.enabled,
                    due@.subrange(0, i as int),
                ),
            decreases due@.len() - i,
        {
            let ghost log = releaser.released();
            releaser.release(self.enabled, &due[i]);
            assert(log.push((self@.enabled, due@[i as int])) =~= old(releaser).released() + releases(
                self@.enabled,
                due@.subrange(0, i as int + 1),
            ));
            i += 1;
        }
        assert(due@.subrange(0, due@.len() as int) =~= due@);
        self.drop_due();
    }
}

/// What is left after a release lies after the current time, and is in the
/// order in which it was.
pub proof fn lemma_later(entries: Seq<(int, Seq<StoreAddr>)>, now: int)
    requires
        ascending(entries),
    ensures
        ascending(later_entries(entries, now)),
        forall|i: int|
            0 <= i < later_entries(entries, now).len() ==> (#[trigger] later_entries(entries, now)[i]).0
                > now,
        forall|i: int|
            0 <= i < later_entries(entries, now).len() ==> entries.contains(
                #[trigger] later_entries(entries, now)[i],
            ),
    decreases entries.len(),
{
    if entries.len() > 0 {
        let rest = entries.drop_last();
        lemma_later(rest, now);
        let got = later_entries(entries, now);
        let sub = later_entries(rest, now);
        assert forall|i: int| 0 <= i < got.len() implies entries.contains(#[trigger] got[i]) by {
            if i < sub.len() {
                assert(rest.contains(sub[i]));
                let k = choose|k: int| 0 <= k < rest.len() && rest[k] == sub[i];
                assert(entries[k] == got[i]);
            } else {
                assert(entries[entries.len() - 1] == got[i]);
            }
        }
        assert forall|i: int, j: int| 0 <= i < j < got.len() implies got[i].0 < got[j].0 by {
            if j < sub.len() {
            } else {
                assert(rest.contains(sub[i]));
                let k = choose|k: int| 0 <= k < rest.len() && rest[k] == sub[i];
                assert(entries[k].0 < entries[entries.len() - 1].0);
            }
        }
    }
}

/// Scheduler monotonicity: after a release at time `now`, every release time
/// that is left is after `now`; and the telecommands that were released are
/// those with a release time up to `now`, in ascending order of release time.
pub proof fn law_release(entries: Seq<(int, Seq<StoreAddr>)>, now: int)
    requires
        ascending(entries),
    ensures
        forall|i: int|
            0 <= i < later_entries(entries, now).len() ==> (#[trigger] later_entries(entries, now)[i]).0
                > now,
        scheduled(entries) == due_addrs(entries, now).len() + scheduled(later_entries(entries, now)),
        due_addrs(later_entries(entries, now), now).len() == 0,
    decreases entries.len(),
{
    lemma_later(entries, now);
    if entries.len() > 0 {
        law_release(entries.drop_last(), now);
        let sub = later_entries(entries.drop_last(), now);
        if entries.last().0 > now {
            assert(later_entries(entries, now).drop_last() =~= sub);
        }
    }
}


/// Why a telecommand was not scheduled.
#[derive(Debug, Clone, Copy, PartialEq, Eq, Structural)]
pub enum ScheduleError {
    /// The telecommand is not TC[11, 4].
    WrongService,
    WrongSubservice,
    /// The application data is shorter than a release time.
    TcDataEmpty,
    /// The release time is no time code that the scheduler reads.
    TimestampError(TimestampError),
    /// What follows the release time is no telecommand.
    PusError(PusError),
    /// The telecommand to schedule would itself schedule a telecommand.
    NestedScheduledTc,
    /// The release time lies further ahead than the margin allows.
    ReleaseTimeInTimeMargin,
    /// The pool did not take the telecommand.
    StoreError(StoreError),
}

/// The subservice of service 11 that enables the scheduler.
pub const TC_ENABLE_SCHEDULING: u8 = 1;

/// The subservice of service 11 that disables the scheduler.
pub const TC_DISABLE_SCHEDULING: u8 = 2;

/// The subservice of service 11 that resets the scheduler.
pub const TC_RESET_SCHEDULING: u8 = 3;

/// The subservice of service 11 that schedules a telecommand.
pub const TC_INSERT_ACTIVITY: u8 = 4;

/// What is wrong with a telecommand that should schedule another one, if
/// anything: it has to be TC[11, 4], and its application data has to be a
/// release time of seven bytes followed by a telecommand that is not itself
/// TC[11, 4]. Else the release time and the bytes of the telecommand to schedule.
pub open spec fn wrapped_tc(tc: crate::tc::TcModel) -> Result<(int, Seq<u8>), ScheduleError> {
    let data = match tc.app_data {
        Some(d) => d,
        None => Seq::<u8>::empty(),
    };
    if tc.data_field_header.service != 11 {
        Err(ScheduleError::WrongService)
    } else if tc.data_field_header.subservice != TC_INSERT_ACTIVITY {
        Err(ScheduleError::WrongSubservice)
    } else if data.len() < 7 {
        Err(ScheduleError::TcDataEmpty)
    } else {
        match TimeProvider::parse(data.subrange(0, 7)) {
            Err(e) => Err(ScheduleError::TimestampError(e)),
            Ok(time) => match crate::tc::parse_tc(data.subrange(7, data.len() as int)) {
                Err(e) => Err(ScheduleError::PusError(e)),
                Ok(inner) => if inner.data_field_header.service == 11
                    && inner.data_field_header.subservice == TC_INSERT_ACTIVITY {
                    Err(ScheduleError::NestedScheduledTc)
                } else {
                    Ok((time.unix_spec().millis(), data.subrange(7, inner.sph.total_len_spec() as int + 7)))
                },
            },
        }
    }
}

/// What the scheduling of the telecommand that `tc` carries does to the
/// scheduler and to what was added to the pool. Nothing changes where `tc` is
/// not in order, see [`wrapped_tc`], where the release time lies further ahead
/// than the margin allows, or where the pool does not take the telecommand.
/// Else the telecommand is added to the pool and its address is entered under
/// its release time.
pub open spec fn wrapped_inserted(
    before: SchedulerModel,
    after: SchedulerModel,
    added_before: Seq<(StoreAddr, Seq<u8>)>,
    added_after: Seq<(StoreAddr, Seq<u8>)>,
    tc: crate::tc::TcModel,
    r: Result<StoreAddr, ScheduleError>,
) -> bool {
    &&& after.current_time == before.current_time
    &&& after.margin == before.margin
    &&& after.enabled == before.enabled
    &&& match wrapped_tc(tc) {
        Err(e) => r == Err::<StoreAddr, ScheduleError>(e) && after == before && added_after
            == added_before,
        Ok((release, bytes)) => if release > before.current_time + before.margin {
            &&& r == Err::<StoreAddr, ScheduleError>(ScheduleError::ReleaseTimeInTimeMargin)
            &&& after == before
            &&& added_after == added_before
        } else {
            match r {
                Ok(addr) => {
                    &&& added_after == added_before.push((addr, bytes))
                    &&& inserted(before.entries, release, addr, after.entries)
                },
                Err(ScheduleError::StoreError(_)) => after == before && added_after == added_before,
                Err(_) => false,
            }
        },
    }
}

impl PusScheduler {
    /// The addresses of all telecommands that wait, in the order of their release.
    pub fn scheduled_addrs(&self) -> (r: Vec<StoreAddr>)
        ensures
            r@ == due_addrs(self@.entries, max_key(self@.entries)),
    {
        let mut out: Vec<StoreAddr> = Vec::new();
        let mut i: usize = 0;
        let ghost top = max_key(self@.entries);
        proof {
            lemma_max_key(self@.entries);
        }
        while i < self.tc_map.len()
            invariant
                i <= self.tc_map@.len(),
                top == max_key(self@.entries),
                forall|k: int| 0 <= k < self@.entries.len() ==> (#[trigger] self@.entries[k]).0 <= top,
                out@ == due_addrs(self@.entries.subrange(0, i as int), top),
            decreases self.tc_map@.len() - i,
        {
            proof {
                assert(self@.entries.subrange(0, i as int + 1).drop_last() =~= self@.entries.subrange(
                    0,
                    i as int,
                ));
                assert(self@.entries.subrange(0, i as int + 1).last() == self@.entries[i as int]);
            }
            let mut k: usize = 0;
            let ghost start = out@;
            while k < self.tc_map[i as usize].1.len()
                invariant
                    i < self.tc_map@.len(),
                    k <= self.tc_map@[i as int].1@.len(),
                    out@ == start + self.tc_map@[i as int].1@.subrange(0, k as int),
                decreases self.tc_map@[i as int].1@.len() - k,
            {
                out.push(self.tc_map[i].1[k]);
                assert(out@ =~= start + self.tc_map@[i as int].1@.subrange(0, k as int + 1));
                k += 1;
            }
            assert(self.tc_map@[i as int].1@.subrange(0, k as int) =~= self.tc_map@[i as int].1@);
            i += 1;
        }
        assert(self@.entries.subrange(0, self.tc_map@.len() as int) =~= self@.entries);
        out
    }

    /// Schedules the telecommand that `pus_tc` carries: stores it in `pool` and
    /// enters its address under its release time. Nothing is stored where
    /// `pus_tc` is not in order, see [`wrapped_tc`], or where the release time
    /// lies further ahead than the margin allows.
    pub fn insert_wrapped_tc<P: PoolProvider>(&mut self, pus_tc: &PusTc, pool: &mut P) -> (r: Result<
        StoreAddr,
        ScheduleError,
    >)
        requires
            old(self).wf(),
            old(pool).usable(),
            pus_tc.wf(),
        ensures
            final(self).wf(),
            final(pool).usable(),
            wrapped_inserted(old(self)@, final(self)@, old(pool).added(), final(pool).added(), pus_tc@, r),
    {
        if pus_tc.service() != 11 {
            return Err(ScheduleError::WrongService);
        }
        if pus_tc.subservice() != TC_INSERT_ACTIVITY {
            return Err(ScheduleError::WrongSubservice);
        }
        let empty: [u8; 0] = [];
        let data: &[u8] = match pus_tc.user_data() {
            Some(d) => d,
            None => &empty,
        };
        proof {
            assert(empty@ =~= Seq::<u8>::empty());
        }
        if data.len() < 7 {
            return Err(ScheduleError::TcDataEmpty);
        }
        let time = match TimeProvider::from_bytes(vstd::slice::slice_subrange(data, 0, 7)) {
            Ok(t) => t,
            Err(e) => {
                return Err(ScheduleError::TimestampError(e));
            },
        };
        let raw = vstd::slice::slice_subrange(data, 7, data.len());
        let inner = match PusTc::new_from_raw_slice(raw) {
            Ok(tc) => tc,
            Err(e) => {
                return Err(ScheduleError::PusError(e));
            },
        };
        if inner.service() == 11 && inner.subservice() == TC_INSERT_ACTIVITY {
            return Err(ScheduleError::NestedScheduledTc);
        }
        let release = time.unix_stamp();
        if release.later_than_by(&self.current_time, self.time_margin_millis) {
            return Err(ScheduleError::ReleaseTimeInTimeMargin);
        }
        let total = inner.total_len();
        let bytes = vstd::slice::slice_subrange(raw, 0, total);
        proof {
            assert(bytes@ =~= data@.subrange(7, total + 7));
        }
        let addr = match pool.add(bytes) {
            Ok(addr) => addr,
            Err(e) => {
                return Err(ScheduleError::StoreError(e));
            },
        };
        let accepted = self.insert_tc(release, addr);
        Ok(addr)
    }
}

/// The latest release time of `entries`, 0 where there is none.
pub open spec fn max_key(entries: Seq<(int, Seq<StoreAddr>)>) -> int
    decreases entries.len(),
{
    if entries.len() == 0 {
        0
    } else if entries.last().0 >= max_key(entries.drop_last()) {
        entries.last().0
    } else {
        max_key(entries.drop_last())
    }
}

/// No release time is later than the latest one.
pub proof fn lemma_max_key(entries: Seq<(int, Seq<StoreAddr>)>)
    ensures
        forall|k: int| 0 <= k < entries.len() ==> (#[trigger] entries[k]).0 <= max_key(entries),
    decreases entries.len(),
{
    if entries.len() > 0 {
        lemma_max_key(entries.drop_last());
        assert forall|k: int| 0 <= k < entries.len() implies (#[trigger] entries[k]).0 <= max_key(
            entries,
        ) by {
            if k < entries.len() - 1 {
                assert(entries.drop_last()[k] == entries[k]);
            }
        }
    }
}

} // verus!
