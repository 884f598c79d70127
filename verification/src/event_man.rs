//! Event routing.
//!
//! The [`EventManager`] takes events from a receiver and hands each of them to
//! the senders of everyone who listens for it. Listeners are entered in a
//! listener table under a [`ListenerKey`]: for one event, for a group of events
//! or for all events. A sender table maps the identifiers in the listener
//! table to the senders themselves.
use crate::channels::{mpsc_send, mpsc_sender_clone, mpsc_try_recv};
use crate::events::{GenericEvent, LargestEventRaw, LargestGroupIdRaw};
use crate::params::Params;
use std::sync::mpsc::{Receiver, SendError, Sender};
use crate::index_map::{
    index_map_contains_key, index_map_get, index_map_insert, index_map_keys, index_map_new, IndexMap,
};
use crate::sorting::sort_dedup;
use core::marker::PhantomData;
use vstd::prelude::*;

verus! {

/// Identifies a sender.
pub type SenderId = u32;

/// What a listener listens for.
#[derive(PartialEq, Eq, Hash, Copy, Clone, Debug, Structural)]
pub enum ListenerKey {
    Single(LargestEventRaw),
    Group(LargestGroupIdRaw),
    All,
}

impl ListenerKey {
    /// The key as one number; no two keys have the same.
    pub open spec fn code(self) -> u64 {
        match self {
            ListenerKey::Single(raw) => raw as u64,
            ListenerKey::Group(group) => (0x1_0000_0000 + group) as u64,
            ListenerKey::All => 0x2_0000_0000,
        }
    }

    /// The key with the given number, if there is one.
    pub open spec fn of_code(code: u64) -> Option<ListenerKey> {
        if code < 0x1_0000_0000 {
            Some(ListenerKey::Single(code as u32))
        } else if code < 0x1_0001_0000 {
            Some(ListenerKey::Group((code - 0x1_0000_0000) as u16))
        } else if code == 0x2_0000_0000 {
            Some(ListenerKey::All)
        } else {
            None
        }
    }

    pub proof fn lemma_code(self)
        ensures
            ListenerKey::of_code(self.code()) == Some(self),
    {
    }

    fn encode(&self) -> (r: u64)
        ensures
            r == self.code(),
    {
        match self {
            ListenerKey::Single(raw) => *raw as u64,
            ListenerKey::Group(group) => 0x1_0000_0000 + *group as u64,
            ListenerKey::All => 0x2_0000_0000,
        }
    }

    fn decode(code: u64) -> (r: Option<ListenerKey>)
        ensures
            r == ListenerKey::of_code(code),
    {
        if code < 0x1_0000_0000 {
            Some(ListenerKey::Single(code as u32))
        } else if code < 0x1_0001_0000 {
            Some(ListenerKey::Group((code - 0x1_0000_0000) as u16))
        } else if code == 0x2_0000_0000 {
            Some(ListenerKey::All)
        } else {
            None
        }
    }
}

/// The auxiliary data `q` is a clone of `p`.
pub open spec fn aux_cloned<Aux: Clone>(p: Option<Aux>, q: Option<Aux>) -> bool {
    match (p, q) {
        (Some(a), Some(b)) => cloned(a, b),
        (None, None) => true,
        _ => false,
    }
}

/// Delivers events to one listener.
///
/// `sent` is the list of what was sent with success, oldest first.
pub trait SendEventProvider<Event, Aux> {
    type Error;

    open spec fn id_spec(&self) -> SenderId {
        arbitrary()
    }

    /// What the sender has sent with success, oldest first.
    open spec fn sent(&self) -> Seq<(Event, Option<Aux>)> {
        arbitrary()
    }

    /// What the sender was asked to send, with success or without, oldest
    /// first.
    open spec fn offered(&self) -> Seq<(Event, Option<Aux>)> {
        arbitrary()
    }

    fn id(&self) -> (r: SenderId)
        ensures
            r == self.id_spec(),
    ;

    /// Sends an event. The sender keeps its identifier; what could not be sent
    /// leaves no trace but in what was offered.
    fn send(&mut self, event: Event, aux_data: Option<Aux>) -> (r: Result<(), Self::Error>)
        ensures
            final(self).id_spec() == old(self).id_spec(),
            final(self).offered() == old(self).offered().push((event, aux_data)),
            r.is_ok() ==> final(self).sent() == old(self).sent().push((event, aux_data)),
            r.is_err() ==> final(self).sent() == old(self).sent(),
    ;

    /// Sends an event without auxiliary data.
    fn send_no_data(&mut self, event: Event) -> (r: Result<(), Self::Error>)
        ensures
            final(self).id_spec() == old(self).id_spec(),
            final(self).offered() == old(self).offered().push((event, None::<Aux>)),
            r.is_ok() ==> final(self).sent() == old(self).sent().push((event, None::<Aux>)),
            r.is_err() ==> final(self).sent() == old(self).sent(),
    {
        self.send(event, None)
    }
}

/// Where the manager takes its events from.
pub trait EventReceiver<Event, Aux> {
    /// The next event with its auxiliary data, if one has arrived.
    fn receive(&mut self) -> Option<(Event, Option<Aux>)>;
}

/// The listeners of a key, none for a key that is not in the table.
pub open spec fn ids_for(table: Map<ListenerKey, Seq<SenderId>>, key: ListenerKey) -> Seq<SenderId> {
    if table.dom().contains(key) {
        table[key]
    } else {
        Seq::empty()
    }
}

/// Who listens under which key.
pub trait ListenerTable {
    /// The listeners of each key, in the order in which they were added.
    open spec fn entries(&self) -> Map<ListenerKey, Seq<SenderId>> {
        arbitrary()
    }

    /// The invariant of the table.
    open spec fn wf(&self) -> bool {
        true
    }

    /// The keys of the table, each once, in no fixed order.
    fn get_listeners(&self) -> (r: Vec<ListenerKey>)
        requires
            self.wf(),
        ensures
            r@.no_duplicates(),
            forall|k: ListenerKey| r@.contains(k) <==> self.entries().dom().contains(k),
    ;

    fn contains_listener(&self, key: &ListenerKey) -> (r: bool)
        requires
            self.wf(),
        ensures
            r == self.entries().dom().contains(*key),
    ;

    /// The listeners of `key`, in the order in which they were added.
    fn get_listener_ids(&self, key: &ListenerKey) -> (r: Option<Vec<SenderId>>)
        requires
            self.wf(),
        ensures
            match r {
                Some(ids) => self.entries().dom().contains(*key) && ids@ == self.entries()[*key],
                None => !self.entries().dom().contains(*key),
            },
    ;

    /// Whether the table takes `sender_id` as one more listener of `key`. A
    /// table of a fixed size may be full.
    open spec fn takes(&self, key: ListenerKey, sender_id: SenderId) -> bool {
        arbitrary()
    }

    /// Adds a listener behind the listeners that `key` has, where the table
    /// takes it, and returns whether it did. A listener can be added more than
    /// once.
    fn add_listener(&mut self, key: ListenerKey, sender_id: SenderId) -> (r: bool)
        requires
            old(self).wf(),
        ensures
            final(self).wf(),
            r == old(self).takes(key, sender_id),
            r ==> final(self).entries() == old(self).entries().insert(
                key,
                ids_for(old(self).entries(), key).push(sender_id),
            ),
            !r ==> final(self).entries() == old(self).entries(),
    ;

    /// Sorts the listeners of `key` and keeps each of them once.
    fn remove_duplicates(&mut self, key: &ListenerKey)
        requires
            old(self).wf(),
        ensures
            final(self).wf(),
            final(self).entries().dom() == old(self).entries().dom(),
            forall|k: ListenerKey|
                k != *key && old(self).entries().dom().contains(k) ==> final(self).entries()[k] == old(
                    self,
                ).entries()[k],
            old(self).entries().dom().contains(*key) ==> {
                &&& crate::sorting::strictly_ascending(final(self).entries()[*key])
                &&& forall|id: SenderId|
                    final(self).entries()[*key].contains(id) <==> old(self).entries()[*key].contains(id)
            },
    ;
}

/// The senders by their identifiers.
pub trait SenderTable<Event, Aux, S: SendEventProvider<Event, Aux>> {
    open spec fn senders(&self) -> Map<SenderId, S> {
        arbitrary()
    }

    /// The invariant of the table.
    open spec fn wf(&self) -> bool {
        true
    }

    fn contains_send_event_provider(&self, id: &SenderId) -> (r: bool)
        requires
            self.wf(),
        ensures
            r == self.senders().dom().contains(*id),
    ;

    /// The sender with identifier `id`, open for use. The table stays in order
    /// as long as the sender keeps its identifier.
    fn get_send_event_provider(&mut self, id: &SenderId) -> (r: Option<&mut S>)
        requires
            old(self).wf(),
        ensures
            match r {
                Some(s) => {
                    &&& old(self).senders().dom().contains(*id)
                    &&& *s == old(self).senders()[*id]
                    &&& final(self).senders() == old(self).senders().insert(*id, *final(s))
                    &&& final(s).id_spec() == s.id_spec() ==> final(self).wf()
                },
                None => {
                    &&& !old(self).senders().dom().contains(*id)
                    &&& final(self).senders() == old(self).senders()
                    &&& final(self).wf()
                },
            },
    ;

    /// Enters a sender under its identifier, unless there is one already.
    fn add_send_event_provider(&mut self, send_provider: S) -> (r: bool)
        requires
            old(self).wf(),
        ensures
            final(self).wf(),
            r == !old(self).senders().dom().contains(send_provider.id_spec()),
            final(self).senders() == (if r {
                old(self).senders().insert(send_provider.id_spec(), send_provider)
            } else {
                old(self).senders()
            }),
    ;
}

/// The listener table that the manager uses unless it is given another: a hash
/// map from the keys to the places of their lists.
pub struct DefaultListenerTableProvider {
    index: IndexMap,
    lists: Vec<Vec<SenderId>>,
}

impl DefaultListenerTableProvider {
    pub fn new() -> (r: Self)
        ensures
            r.wf(),
            r.entries() == Map::<ListenerKey, Seq<SenderId>>::empty(),
    {
        let r = DefaultListenerTableProvider { index: index_map_new(), lists: Vec::new() };
        assert(r.entries() =~= Map::<ListenerKey, Seq<SenderId>>::empty());
        r
    }

    spec fn places(&self) -> Map<u64, usize> {
        crate::index_map::index_map(self.index)
    }
}

impl ListenerTable for DefaultListenerTableProvider {
    /// This table takes every listener.
    open spec fn takes(&self, key: ListenerKey, sender_id: SenderId) -> bool {
        true
    }

    closed spec fn entries(&self) -> Map<ListenerKey, Seq<SenderId>> {
        Map::new(
            |k: ListenerKey| self.places().dom().contains(k.code()),
            |k: ListenerKey| self.lists@[self.places()[k.code()] as int]@,
        )
    }

    closed spec fn wf(&self) -> bool {
        &&& forall|c: u64| #[trigger]
            self.places().dom().contains(c) ==> self.places()[c] < self.lists@.len()
                && ListenerKey::of_code(c).is_some()
        &&& forall|c: u64, d: u64|
            self.places().dom().contains(c) && self.places().dom().contains(d) && c != d
                ==> self.places()[c] != self.places()[d]
    }

    fn get_listeners(&self) -> (r: Vec<ListenerKey>) {
        let codes = index_map_keys(&self.index);
        let mut keys: Vec<ListenerKey> = Vec::new();
        let mut i: usize = 0;
        while i < codes.len()
            invariant
                i <= codes@.len(),
                self.wf(),
                codes@.no_duplicates(),
                forall|k: u64| codes@.contains(k) <==> self.places().dom().contains(k),
                keys@.len() == i,
                forall|j: int| 0 <= j < i ==> (#[trigger] keys@[j]).code() == codes@[j],
            decreases codes@.len() - i,
        {
            assert(codes@.contains(codes@[i as int]));
            match ListenerKey::decode(codes[i]) {
                Some(key) => {
                    proof {
                        key.lemma_code();
                    }
                    keys.push(key);
                },
                None => {
                    assert(false);
                },
            }
            i += 1;
        }
        proof {
            assert forall|k: ListenerKey| keys@.contains(k) <==> self.entries().dom().contains(k) by {
                if keys@.contains(k) {
                    let j = choose|j: int| 0 <= j < keys@.len() && keys@[j] == k;
                    assert(codes@.contains(codes@[j]));
                }
                if self.entries().dom().contains(k) {
                    assert(codes@.contains(k.code()));
                    let j = choose|j: int| 0 <= j < codes@.len() && codes@[j] == k.code();
                    keys@[j].lemma_code();
                    k.lemma_code();
                    assert(keys@[j] == k);
                }
            }
        }
        keys
    }

    fn contains_listener(&self, key: &ListenerKey) -> (r: bool) {
        index_map_contains_key(&self.index, key.encode())
    }

    fn get_listener_ids(&self, key: &ListenerKey) -> (r: Option<Vec<SenderId>>) {
        match index_map_get(&self.index, key.encode()) {
            Some(place) => {
                assert(self.places().dom().contains(key.code()));
                Some(self.lists[place].clone())
            },
            None => None,
        }
    }

    fn add_listener(&mut self, key: ListenerKey, sender_id: SenderId) -> (r: bool)
        ensures
            r,
    {
        proof {
            key.lemma_code();
        }
        let code = key.encode();
        match index_map_get(&self.index, code) {
            Some(place) => {
                assert(self.places().dom().contains(code));
                self.lists[place].push(sender_id);
                proof {
                    assert forall|k: ListenerKey| #[trigger]
                        self.entries().dom().contains(k) && k != key implies self.entries()[k] == old(
                        self,
                    ).entries()[k] by {
                        k.lemma_code();
                        assert(self.places().dom().contains(k.code()));
                    }
                    assert(self.entries() =~= old(self).entries().insert(
                        key,
                        ids_for(old(self).entries(), key).push(sender_id),
                    ));
                }
            },
            None => {
                let mut new_list: Vec<SenderId> = Vec::new();
                new_list.push(sender_id);
                let place = self.lists.len();
                self.lists.push(new_list);
                let previous = index_map_insert(&mut self.index, code, place);
                proof {
                    assert forall|k: ListenerKey| #[trigger]
                        self.entries().dom().contains(k) && k != key implies old(
                        self,
                    ).entries().dom().contains(k) && self.entries()[k] == old(self).entries()[k] by {
                        k.lemma_code();
                        assert(old(self).places().dom().contains(k.code()));
                    }
                    assert(ids_for(old(self).entries(), key).push(sender_id) =~= seq![sender_id]);
                    assert(self.entries() =~= old(self).entries().insert(
                        key,
                        ids_for(old(self).entries(), key).push(sender_id),
                    ));
                }
            },
        }
        true
    }

    fn remove_duplicates(&mut self, key: &ListenerKey) {
        proof {
            key.lemma_code();
        }
        if let Some(place) = index_map_get(&self.index, key.encode()) {
            assert(self.places().dom().contains(key.code()));
            let mut list: Vec<SenderId> = Vec::new();
            core::mem::swap(&mut list, &mut self.lists[place]);
            sort_dedup(&mut list);
            core::mem::swap(&mut list, &mut self.lists[place]);
            proof {
                assert(self.entries().dom() =~= old(self).entries().dom());
                assert forall|k: ListenerKey|
                    k != *key && old(self).entries().dom().contains(k) implies self.entries()[k] == old(
                    self,
                ).entries()[k] by {
                    k.lemma_code();
                    assert(self.places().dom().contains(k.code()));
                }
            }
        } else {
            assert(self.entries().dom() =~= old(self).entries().dom());
        }
    }
}


/// The sender table that the manager uses unless it is given another: the
/// senders in a list and a hash map from their identifiers to their places.
pub struct DefaultSenderTableProvider<Event, Aux, S: SendEventProvider<Event, Aux>> {
    index: IndexMap,
    list: Vec<S>,
    phantom: PhantomData<(Event, Aux)>,
}

impl<Event, Aux, S: SendEventProvider<Event, Aux>> DefaultSenderTableProvider<Event, Aux, S> {
    pub fn new() -> (r: Self)
        ensures
            r.wf(),
            r.senders() == Map::<SenderId, S>::empty(),
    {
        let r = DefaultSenderTableProvider { index: index_map_new(), list: Vec::new(), phantom: PhantomData };
        assert(r.senders() =~= Map::<SenderId, S>::empty());
        r
    }

    spec fn places(&self) -> Map<u64, usize> {
        crate::index_map::index_map(self.index)
    }
}

impl<Event, Aux, S: SendEventProvider<Event, Aux>> SenderTable<
    Event,
    Aux,
    S,
> for DefaultSenderTableProvider<Event, Aux, S> {
    closed spec fn senders(&self) -> Map<SenderId, S> {
        Map::new(
            |id: SenderId| self.places().dom().contains(id as u64),
            |id: SenderId| self.list@[self.places()[id as u64] as int],
        )
    }

    closed spec fn wf(&self) -> bool {
        &&& forall|c: u64| #[trigger]
            self.places().dom().contains(c) ==> self.places()[c] < self.list@.len() && c <= u32::MAX
                && self.list@[self.places()[c] as int].id_spec() == c
        &&& forall|c: u64, d: u64|
            self.places().dom().contains(c) && self.places().dom().contains(d) && c != d
                ==> self.places()[c] != self.places()[d]
    }

    fn contains_send_event_provider(&self, id: &SenderId) -> (r: bool) {
        index_map_contains_key(&self.index, *id as u64)
    }

    fn get_send_event_provider(&mut self, id: &SenderId) -> (r: Option<&mut S>) {
        match index_map_get(&self.index, *id as u64) {
            Some(place) => {
                assert(self.places().dom().contains(*id as u64));
                Some(&mut self.list[place])
            },
            None => None,
        }
    }

    fn add_send_event_provider(&mut self, send_provider: S) -> (r: bool) {
        let id = send_provider.id();
        if index_map_contains_key(&self.index, id as u64) {
            return false;
        }
        let place = self.list.len();
        self.list.push(send_provider);
        let previous = index_map_insert(&mut self.index, id as u64, place);
        proof {
            assert forall|k: SenderId| #[trigger]
                self.senders().dom().contains(k) && k != id implies old(self).senders().dom().contains(k)
                && self.senders()[k] == old(self).senders()[k] by {
                assert(old(self).places().dom().contains(k as u64));
            }
            assert(self.senders() =~= old(self).senders().insert(id, send_provider));
        }
        true
    }
}


/// What the routing of one event came to.
#[derive(Debug)]
pub enum EventRoutingResult<Event, Aux> {
    /// There was no event to route.
    Empty,
    /// An event was routed: the number of senders that took it, the event and
    /// its auxiliary data.
    Handled(u32, Event, Option<Aux>),
}

/// Why an event did not reach a listener.
#[derive(Debug)]
pub enum EventRoutingError<E> {
    SendError(E),
    NoSendersForKey(ListenerKey),
    NoSenderForId(SenderId),
}

/// The result of a routing in which something went wrong, with the first three errors.
#[derive(Debug)]
pub struct EventRoutingErrorsWithResult<Event, Aux, E> {
    pub result: EventRoutingResult<Event, Aux>,
    pub errors: [Option<EventRoutingError<E>>; 3],
}

/// Everyone who is to get an event with the given raw form and group: the
/// listeners of the event itself, then those of its group, then those of all
/// events, each list in the order in which it was filled.
pub open spec fn recipients(
    table: Map<ListenerKey, Seq<SenderId>>,
    raw: LargestEventRaw,
    group: LargestGroupIdRaw,
) -> Seq<SenderId> {
    ids_for(table, ListenerKey::Single(raw)) + ids_for(table, ListenerKey::Group(group)) + ids_for(
        table,
        ListenerKey::All,
    )
}

/// How many entries of `outcome` say that a delivery worked.
pub open spec fn count_true(outcome: Seq<bool>) -> nat
    decreases outcome.len(),
{
    if outcome.len() == 0 {
        0
    } else {
        count_true(outcome.drop_last()) + (if outcome.last() {
            1nat
        } else {
            0nat
        })
    }
}

/// How many deliveries to `id` worked, where `outcome` says for each entry of
/// `plan` whether its delivery worked.
pub open spec fn delivered_to(plan: Seq<SenderId>, outcome: Seq<bool>, id: SenderId) -> nat
    decreases plan.len(),
{
    if plan.len() == 0 || outcome.len() != plan.len() {
        0
    } else {
        delivered_to(plan.drop_last(), outcome.drop_last(), id) + (if plan.last() == id
            && outcome.last() {
            1nat
        } else {
            0nat
        })
    }
}

/// How often `id` occurs in `plan`.
pub open spec fn occurrences(plan: Seq<SenderId>, id: SenderId) -> nat
    decreases plan.len(),
{
    if plan.len() == 0 {
        0
    } else {
        occurrences(plan.drop_last(), id) + (if plan.last() == id {
            1nat
        } else {
            0nat
        })
    }
}

/// The log `after` is the log `before` with `n` more entries, each of them the
/// event with a clone of the auxiliary data.
pub open spec fn got_copies<Event, Aux: Clone>(
    before: Seq<(Event, Option<Aux>)>,
    after: Seq<(Event, Option<Aux>)>,
    event: Event,
    aux: Option<Aux>,
    n: nat,
) -> bool {
    &&& after.len() == before.len() + n
    &&& after.subrange(0, before.len() as int) == before
    &&& forall|j: int|
        before.len() <= j < after.len() ==> (#[trigger] after[j]).0 == event && aux_cloned(
            aux,
            after[j].1,
        )
}

/// How many entries of `outcome` say that a delivery failed.
pub open spec fn failures(outcome: Seq<bool>) -> nat
    decreases outcome.len(),
{
    if outcome.len() == 0 {
        0
    } else {
        failures(outcome.drop_last()) + (if outcome.last() {
            0nat
        } else {
            1nat
        })
    }
}

/// `err` is the error of a failed delivery to `id`: that there is no sender
/// for it, or else the error of its sender.
pub open spec fn is_error_for<E>(err: EventRoutingError<E>, id: SenderId, has_sender: bool) -> bool {
    if has_sender {
        err is SendError
    } else {
        err == EventRoutingError::<E>::NoSenderForId(id)
    }
}

/// `errors` holds the errors of the first three deliveries that failed, in
/// their order, and nothing behind them. `known` are the identifiers that
/// have a sender.
pub open spec fn errors_noted<E>(
    plan: Seq<SenderId>,
    outcome: Seq<bool>,
    known: Set<SenderId>,
    errors: Seq<Option<EventRoutingError<E>>>,
) -> bool {
    &&& errors.len() == 3
    &&& forall|j: int|
        0 <= j < outcome.len() && !(#[trigger] outcome[j]) && failures(outcome.subrange(0, j)) < 3
            ==> (errors[failures(outcome.subrange(0, j)) as int] matches Some(err) && is_error_for(
            err,
            plan[j],
            known.contains(plan[j]),
        ))
    &&& forall|k: int| 0 <= k < 3 ==> ((#[trigger] errors[k]).is_none() <==> k >= failures(outcome))
}

/// The failures of a part of the outcomes are among those of the whole, and
/// a failure behind the part is one more.
pub proof fn lemma_failures_prefix(outcome: Seq<bool>, j: int)
    requires
        0 <= j <= outcome.len(),
    ensures
        failures(outcome.subrange(0, j)) <= failures(outcome),
        j < outcome.len() && !outcome[j] ==> failures(outcome.subrange(0, j)) < failures(outcome),
        failures(outcome) + count_true(outcome) == outcome.len(),
    decreases outcome.len(),
{
    if outcome.len() == 0 {
        assert(outcome.subrange(0, j) =~= outcome);
    } else if j == outcome.len() {
        assert(outcome.subrange(0, j) =~= outcome);
        lemma_failures_prefix(outcome.drop_last(), j - 1);
    } else {
        let rest = outcome.drop_last();
        lemma_failures_prefix(rest, j);
        assert(rest.subrange(0, j) =~= outcome.subrange(0, j));
        if j == outcome.len() - 1 {
            assert(rest.subrange(0, j) =~= rest);
        }
    }
}

/// What is kept of one delivery: a delivery that worked is counted, as long
/// as the count can grow; of one that failed the error is noted behind the
/// errors that are there, as long as there are less than three. `result`
/// is what the sender gave, or `None` where there is no sender for `id`.
pub open spec fn delivery_noted<E>(
    result: Option<Result<(), E>>,
    id: SenderId,
    count: u32,
    errors: Seq<Option<EventRoutingError<E>>>,
    err_idx: usize,
    noted: (u32, Seq<Option<EventRoutingError<E>>>, usize),
) -> bool {
    match result {
        Some(Ok(_)) => noted.0 == (if count < u32::MAX {
            (count + 1) as u32
        } else {
            count
        }) && noted.1 == errors && noted.2 == err_idx,
        Some(Err(e)) => noted.0 == count && (if err_idx < 3 {
            noted.1 == errors.update(err_idx as int, Some(EventRoutingError::SendError(e))) && noted.2
                == err_idx + 1
        } else {
            noted.1 == errors && noted.2 == err_idx
        }),
        None => noted.0 == count && (if err_idx < 3 {
            noted.1 == errors.update(err_idx as int, Some(EventRoutingError::<E>::NoSenderForId(id)))
                && noted.2 == err_idx + 1
        } else {
            noted.1 == errors && noted.2 == err_idx
        }),
    }
}

/// Notes what became of one delivery, see [`delivery_noted`]: returns the
/// count, the errors and the number of errors as they are then.
pub fn note_delivery<E>(
    result: Option<Result<(), E>>,
    id: SenderId,
    count: u32,
    errors: [Option<EventRoutingError<E>>; 3],
    err_idx: usize,
) -> (r: (u32, [Option<EventRoutingError<E>>; 3], usize))
    requires
        err_idx <= 3,
    ensures
        delivery_noted(result, id, count, errors@, err_idx, (r.0, r.1@, r.2)),
{
    let mut errors = errors;
    let error = match result {
        Some(Ok(())) => {
            let counted = if count < u32::MAX {
                count + 1
            } else {
                count
            };
            return (counted, errors, err_idx);
        },
        Some(Err(e)) => EventRoutingError::SendError(e),
        None => EventRoutingError::NoSenderForId(id),
    };
    if err_idx < 3 {
        errors[err_idx] = Some(error);
        (count, errors, err_idx + 1)
    } else {
        (count, errors, err_idx)
    }
}

/// The number of recipients as the result gives it: the count, or the largest
/// `u32` where the count is larger.
pub open spec fn clamp_u32(n: nat) -> u32 {
    if n <= u32::MAX {
        n as u32
    } else {
        u32::MAX
    }
}

/// Routes events from a receiver to the senders of those who listen.
pub struct EventManager<Event, Aux, S, L, T, R> where
    Event: GenericEvent + Copy,
    Aux: Clone,
    S: SendEventProvider<Event, Aux>,
    L: ListenerTable,
    T: SenderTable<Event, Aux, S>,
    R: EventReceiver<Event, Aux>,
 {
    listener_table: L,
    sender_table: T,
    event_receiver: R,
    phantom: PhantomData<(Event, Aux, S)>,
}

impl<Event, Aux, S, L, T, R> EventManager<Event, Aux, S, L, T, R> where
    Event: GenericEvent + Copy,
    Aux: Clone,
    S: SendEventProvider<Event, Aux>,
    L: ListenerTable,
    T: SenderTable<Event, Aux, S>,
    R: EventReceiver<Event, Aux>,
 {
    /// The listener table.
    pub closed spec fn listeners(&self) -> Map<ListenerKey, Seq<SenderId>> {
        self.listener_table.entries()
    }

    /// The sender table.
    pub closed spec fn senders(&self) -> Map<SenderId, S> {
        self.sender_table.senders()
    }

    /// Both tables are in order.
    pub closed spec fn wf(&self) -> bool {
        self.listener_table.wf() && self.sender_table.wf()
    }

    /// Whether the listener table takes `sender_id` as one more listener of
    /// `key`, see [`ListenerTable::takes`].
    pub closed spec fn takes(&self, key: ListenerKey, sender_id: SenderId) -> bool {
        self.listener_table.takes(key, sender_id)
    }

    /// What one routing does. For each entry of the list of recipients,
    /// `outcome` says whether the delivery worked. A delivery can only work
    /// where the recipient has a sender. Every sender was offered the event,
    /// with a clone of the auxiliary data, once for each time that the list
    /// names it, and has as many new entries in the log of what it sent as
    /// deliveries to it worked.
    pub open spec fn routed(
        before: &Self,
        after: &Self,
        event: Event,
        aux: Option<Aux>,
        outcome: Seq<bool>,
    ) -> bool {
        let plan = recipients(
            before.listeners(),
            event.raw_largest_spec(),
            event.group_largest_spec(),
        );
        &&& after.wf()
        &&& after.listeners() == before.listeners()
        &&& after.senders().dom() == before.senders().dom()
        &&& outcome.len() == plan.len()
        &&& forall|j: int|
            0 <= j < plan.len() && outcome[j] ==> before.senders().dom().contains(#[trigger] plan[j])
        &&& forall|id: SenderId| #[trigger]
            before.senders().dom().contains(id) ==> got_copies(
                before.senders()[id].sent(),
                after.senders()[id].sent(),
                event,
                aux,
                delivered_to(plan, outcome, id),
            )
        &&& forall|id: SenderId| #[trigger]
            before.senders().dom().contains(id) ==> got_copies(
                before.senders()[id].offered(),
                after.senders()[id].offered(),
                event,
                aux,
                occurrences(plan, id),
            )
    }

    /// What one routing leaves behind and returns, where `outcome` says for
    /// each entry of the list of recipients whether the delivery worked. The
    /// result carries the number of deliveries that worked, the event and the
    /// auxiliary data. It is `Ok` exactly if every delivery worked; else it
    /// carries the errors of the first three that failed, see [`errors_noted`].
    pub open spec fn route_result(
        before: &Self,
        after: &Self,
        event: Event,
        aux: Option<Aux>,
        outcome: Seq<bool>,
        r: Result<EventRoutingResult<Event, Aux>, EventRoutingErrorsWithResult<Event, Aux, S::Error>>,
    ) -> bool {
        &&& Self::routed(before, after, event, aux, outcome)
        &&& r.is_ok() <==> forall|j: int| 0 <= j < outcome.len() ==> outcome[j]
        &&& match r {
            Ok(res) => res == EventRoutingResult::Handled(clamp_u32(count_true(outcome)), event, aux),
            Err(e) => {
                &&& e.result == EventRoutingResult::Handled(clamp_u32(count_true(outcome)), event, aux)
                &&& e.errors[0].is_some()
                &&& errors_noted(
                    recipients(
                        before.listeners(),
                        event.raw_largest_spec(),
                        event.group_largest_spec(),
                    ),
                    outcome,
                    before.senders().dom(),
                    e.errors@,
                )
            },
        }
    }

    /// A manager with the given tables.
    pub fn new_custom_tables(listener_table: L, sender_table: T, event_receiver: R) -> (r: Self)
        requires
            listener_table.wf(),
            sender_table.wf(),
        ensures
            r.wf(),
            r.listeners() == listener_table.entries(),
            r.senders() == sender_table.senders(),
    {
        EventManager { listener_table, sender_table, event_receiver, phantom: PhantomData }
    }

    /// Sorts the listeners of `key` and keeps each of them once.
    pub fn remove_duplicates(&mut self, key: &ListenerKey)
        requires
            old(self).wf(),
        ensures
            final(self).wf(),
            final(self).senders() == old(self).senders(),
            final(self).listeners().dom() == old(self).listeners().dom(),
            forall|k: ListenerKey|
                k != *key && old(self).listeners().dom().contains(k) ==> final(self).listeners()[k]
                    == old(self).listeners()[k],
            old(self).listeners().dom().contains(*key) ==> {
                &&& crate::sorting::strictly_ascending(final(self).listeners()[*key])
                &&& forall|id: SenderId|
                    final(self).listeners()[*key].contains(id) <==> old(self).listeners()[*key].contains(
                        id,
                    )
            },
    {
        self.listener_table.remove_duplicates(key)
    }

    fn update_listeners(&mut self, key: ListenerKey, sender_id: SenderId) -> (r: bool)
        requires
            old(self).wf(),
        ensures
            final(self).wf(),
            final(self).senders() == old(self).senders(),
            r == old(self).takes(key, sender_id),
            final(self).listeners() == (if r {
                old(self).listeners().insert(key, ids_for(old(self).listeners(), key).push(sender_id))
            } else {
                old(self).listeners()
            }),
    {
        self.listener_table.add_listener(key, sender_id)
    }

    /// Enters `sender_id` as a listener for one event, behind the listeners
    /// that the event has. Returns whether the listener table took the entry;
    /// the table of the default kind always does.
    pub fn subscribe_single(&mut self, event: &Event, sender_id: SenderId) -> (r: bool)
        requires
            old(self).wf(),
        ensures
            final(self).wf(),
            final(self).senders() == old(self).senders(),
            r == old(self).takes(ListenerKey::Single(event.raw_largest_spec()), sender_id),
            ({
                let key = ListenerKey::Single(event.raw_largest_spec());
                final(self).listeners() == (if r {
                    old(self).listeners().insert(key, ids_for(old(self).listeners(), key).push(sender_id))
                } else {
                    old(self).listeners()
                })
            }),
    {
        self.update_listeners(ListenerKey::Single(event.raw_as_largest_type()), sender_id)
    }

    /// Enters `sender_id` as a listener for a group of events, behind the
    /// listeners that the group has. Returns whether the listener table took
    /// the entry; the table of the default kind always does.
    pub fn subscribe_group(&mut self, group_id: LargestGroupIdRaw, sender_id: SenderId) -> (r: bool)
        requires
            old(self).wf(),
        ensures
            final(self).wf(),
            final(self).senders() == old(self).senders(),
            r == old(self).takes(ListenerKey::Group(group_id), sender_id),
            ({
                let key = ListenerKey::Group(group_id);
                final(self).listeners() == (if r {
                    old(self).listeners().insert(key, ids_for(old(self).listeners(), key).push(sender_id))
                } else {
                    old(self).listeners()
                })
            }),
    {
        self.update_listeners(ListenerKey::Group(group_id), sender_id)
    }

    /// Enters `sender_id` as a listener for all events, behind those that
    /// are there. Returns whether the listener table took the entry; the table
    /// of the default kind always does.
    pub fn subscribe_all(&mut self, sender_id: SenderId) -> (r: bool)
        requires
            old(self).wf(),
        ensures
            final(self).wf(),
            final(self).senders() == old(self).senders(),
            r == old(self).takes(ListenerKey::All, sender_id),
            ({
                let key = ListenerKey::All;
                final(self).listeners() == (if r {
                    old(self).listeners().insert(key, ids_for(old(self).listeners(), key).push(sender_id))
                } else {
                    old(self).listeners()
                })
            }),
    {
        self.update_listeners(ListenerKey::All, sender_id)
    }

    /// Enters a sender under its identifier. A sender whose identifier is taken
    /// is dropped.
    pub fn add_sender(&mut self, send_provider: S)
        requires
            old(self).wf(),
        ensures
            final(self).wf(),
            final(self).listeners() == old(self).listeners(),
            final(self).senders() == (if old(self).senders().dom().contains(send_provider.id_spec()) {
                old(self).senders()
            } else {
                old(self).senders().insert(send_provider.id_spec(), send_provider)
            }),
    {
        let id = send_provider.id();
        if !self.sender_table.contains_send_event_provider(&id) {
            self.sender_table.add_send_event_provider(send_provider);
        }
    }

    fn ids_of(&self, key: &ListenerKey) -> (r: Vec<SenderId>)
        requires
            self.wf(),
        ensures
            r@ == ids_for(self.listeners(), *key),
    {
        if self.listener_table.contains_listener(key) {
            match self.listener_table.get_listener_ids(key) {
                Some(ids) => ids,
                None => Vec::new(),
            }
        } else {
            Vec::new()
        }
    }

    /// The identifiers of everyone who is to get `event`, in the order of delivery.
    pub fn recipients_for(&self, event: &Event) -> (r: Vec<SenderId>)
        requires
            self.wf(),
        ensures
            r@ == recipients(self.listeners(), event.raw_largest_spec(), event.group_largest_spec()),
    {
        let mut plan = self.ids_of(&ListenerKey::Single(event.raw_as_largest_type()));
        let mut group = self.ids_of(&ListenerKey::Group(event.group_id_as_largest_type()));
        let mut all = self.ids_of(&ListenerKey::All);
        plan.append(&mut group);
        plan.append(&mut all);
        plan
    }
}

/// Where every delivery worked, everyone got the event as often as the list of
/// recipients names them, and the number of deliveries is the length of that list.
pub proof fn lemma_all_delivered(plan: Seq<SenderId>, outcome: Seq<bool>, id: SenderId)
    requires
        outcome.len() == plan.len(),
        forall|j: int| 0 <= j < outcome.len() ==> outcome[j],
    ensures
        count_true(outcome) == plan.len(),
        delivered_to(plan, outcome, id) == occurrences(plan, id),
    decreases plan.len(),
{
    if plan.len() > 0 {
        lemma_all_delivered(plan.drop_last(), outcome.drop_last(), id);
    }
}

/// In a list without duplicates an identifier occurs once or not at all.
pub proof fn lemma_occurs_once(plan: Seq<SenderId>, id: SenderId)
    requires
        plan.no_duplicates(),
    ensures
        occurrences(plan, id) == (if plan.contains(id) {
            1nat
        } else {
            0nat
        }),
    decreases plan.len(),
{
    if plan.len() > 0 {
        let rest = plan.drop_last();
        lemma_occurs_once(rest, id);
        if plan.last() == id {
            if rest.contains(id) {
                let k = choose|k: int| 0 <= k < rest.len() && rest[k] == id;
                assert(plan[k] == id);
            }
            assert(plan[plan.len() - 1] == id);
        } else {
            if plan.contains(id) {
                let k = choose|k: int| 0 <= k < plan.len() && plan[k] == id;
                assert(rest[k] == id);
            }
            if rest.contains(id) {
                let k = choose|k: int| 0 <= k < rest.len() && rest[k] == id;
                assert(plan[k] == id);
            }
        }
    }
}


/// One more entry in the list of recipients and in the list of outcomes.
proof fn lemma_delivered_step(plan: Seq<SenderId>, i: int, outcome: Seq<bool>, worked: bool, id: SenderId)
    requires
        0 <= i < plan.len(),
        outcome.len() == i,
    ensures
        delivered_to(plan.subrange(0, i + 1), outcome.push(worked), id) == delivered_to(
            plan.subrange(0, i),
            outcome,
            id,
        ) + (if plan[i] == id && worked {
            1nat
        } else {
            0nat
        }),
        count_true(outcome.push(worked)) == count_true(outcome) + (if worked {
            1nat
        } else {
            0nat
        }),
{
    assert(plan.subrange(0, i + 1).drop_last() =~= plan.subrange(0, i));
    assert(outcome.push(worked).drop_last() =~= outcome);
}

impl<Event, Aux, S, L, T, R> EventManager<Event, Aux, S, L, T, R> where
    Event: GenericEvent + Copy,
    Aux: Clone,
    S: SendEventProvider<Event, Aux>,
    L: ListenerTable,
    T: SenderTable<Event, Aux, S>,
    R: EventReceiver<Event, Aux>,
 {
    /// Routes one event: hands it, with a clone of the auxiliary data, to the
    /// sender of each recipient, in the order of [`recipients`].
    ///
    /// The result carries the number of deliveries that worked. It is `Ok`
    /// exactly if every delivery worked; else it carries the first three errors.
    pub fn route_event(&mut self, event: Event, aux_data: Option<Aux>) -> (r: Result<
        EventRoutingResult<Event, Aux>,
        EventRoutingErrorsWithResult<Event, Aux, S::Error>,
    >)
        requires
            old(self).wf(),
        ensures
            exists|outcome: Seq<bool>| #[trigger]
                Self::route_result(old(self), final(self), event, aux_data, outcome, r),
    {
        let plan = self.recipients_for(&event);
        let ghost before = *old(self);
        let ghost mut outcome: Seq<bool> = Seq::empty();
        let mut err_idx: usize = 0;
        let mut errors: [Option<EventRoutingError<S::Error>>; 3] = [None, None, None];
        let mut num_recipients: u32 = 0;
        let mut i: usize = 0;
        proof {
            assert forall|id: SenderId| #[trigger] before.senders().dom().contains(id) implies got_copies(
                before.senders()[id].sent(),
                self.senders()[id].sent(),
                event,
                aux_data,
                delivered_to(plan@.subrange(0, 0), outcome, id),
            ) by {
                assert(self.senders()[id].sent().subrange(0, before.senders()[id].sent().len() as int)
                    =~= before.senders()[id].sent());
            }
            assert forall|id: SenderId| #[trigger] before.senders().dom().contains(id) implies got_copies(
                before.senders()[id].offered(),
                self.senders()[id].offered(),
                event,
                aux_data,
                occurrences(plan@.subrange(0, 0), id),
            ) by {
                assert(self.senders()[id].offered().subrange(
                    0,
                    before.senders()[id].offered().len() as int,
                ) =~= before.senders()[id].offered());
            }
        }
        while i < plan.len()
            invariant
                i <= plan@.len(),
                before == *old(self),
                before.wf(),
                plan@ == recipients(
                    before.listeners(),
                    event.raw_largest_spec(),
                    event.group_largest_spec(),
                ),
                self.wf(),
                self.listeners() == before.listeners(),
                self.senders().dom() == before.senders().dom(),
                outcome.len() == i,
                forall|j: int| 0 <= j < i && outcome[j] ==> before.senders().dom().contains(#[trigger] plan@[j]),
                forall|id: SenderId| #[trigger]
                    before.senders().dom().contains(id) ==> got_copies(
                        before.senders()[id].sent(),
                        self.senders()[id].sent(),
                        event,
                        aux_data,
                        delivered_to(plan@.subrange(0, i as int), outcome, id),
                    ),
                forall|id: SenderId| #[trigger]
                    before.senders().dom().contains(id) ==> got_copies(
                        before.senders()[id].offered(),
                        self.senders()[id].offered(),
                        event,
                        aux_data,
                        occurrences(plan@.subrange(0, i as int), id),
                    ),
                num_recipients == clamp_u32(count_true(outcome)),
                err_idx <= 3,
                err_idx == (if failures(outcome) < 3 {
                    failures(outcome)
                } else {
                    3nat
                }),
                errors_noted(plan@, outcome, before.senders().dom(), errors@),
                (err_idx == 0) <==> (forall|j: int| 0 <= j < i ==> outcome[j]),
                err_idx > 0 ==> errors[0].is_some(),
            decreases plan@.len() - i,
        {
            let id = plan[i];
            let ghost mid = self.senders();
            let ghost old_errors = errors@;
            let ghost old_err_idx = err_idx;
            let result = match self.sender_table.get_send_event_provider(&id) {
                Some(sender) => {
                    let copy = match &aux_data {
                        Some(a) => Some(a.clone()),
                        None => None,
                    };
                    proof {
                        assert(aux_cloned(aux_data, copy));
                    }
                    Some(sender.send(event, copy))
                },
                None => None,
            };
            let ghost worked = result matches Some(Ok(_));
            let ghost has_sender = result.is_some();
            let noted = note_delivery(result, id, num_recipients, errors, err_idx);
            num_recipients = noted.0;
            errors = noted.1;
            err_idx = noted.2;
            proof {
                let old_outcome = outcome;
                outcome = outcome.push(worked);
                assert(self.senders().dom() =~= before.senders().dom());
                assert(has_sender == before.senders().dom().contains(id));
                assert(outcome.drop_last() =~= old_outcome);
                assert(outcome.subrange(0, i as int) =~= old_outcome);
                assert(errors_noted(plan@, outcome, before.senders().dom(), errors@)) by {
                    assert forall|j: int|
                        0 <= j < outcome.len() && !(#[trigger] outcome[j]) && failures(
                            outcome.subrange(0, j),
                        ) < 3 implies (errors@[failures(outcome.subrange(0, j)) as int] matches Some(err)
                        && is_error_for(err, plan@[j], before.senders().dom().contains(plan@[j]))) by {
                        if j < i {
                            assert(outcome.subrange(0, j) =~= old_outcome.subrange(0, j));
                            assert(!old_outcome[j]);
                            lemma_failures_prefix(old_outcome, j);
                        }
                    }
                    assert forall|k: int| 0 <= k < 3 implies ((#[trigger] errors@[k]).is_none() <==> k
                        >= failures(outcome)) by {
                        assert(old_errors[k].is_none() <==> k >= failures(old_outcome));
                    }
                }
                assert forall|other: SenderId| #[trigger]
                    before.senders().dom().contains(other) implies got_copies(
                    before.senders()[other].offered(),
                    self.senders()[other].offered(),
                    event,
                    aux_data,
                    occurrences(plan@.subrange(0, i as int + 1), other),
                ) by {
                    assert(plan@.subrange(0, i as int + 1).drop_last() =~= plan@.subrange(0, i as int));
                    let start = before.senders()[other].offered();
                    let was = mid[other].offered();
                    let now = self.senders()[other].offered();
                    if other == id {
                        assert(now.len() == was.len() + 1);
                        assert(now.subrange(0, start.len() as int) =~= was.subrange(0, start.len() as int));
                        assert forall|j: int| start.len() <= j < now.len() implies (#[trigger] now[j]).0
                            == event && aux_cloned(aux_data, now[j].1) by {
                            if j < was.len() {
                                assert(now[j] == was[j]);
                            }
                        }
                    } else {
                        assert(now == was);
                    }
                }
                assert forall|other: SenderId| #[trigger]
                    before.senders().dom().contains(other) implies got_copies(
                    before.senders()[other].sent(),
                    self.senders()[other].sent(),
                    event,
                    aux_data,
                    delivered_to(plan@.subrange(0, i as int + 1), outcome, other),
                ) by {
                    lemma_delivered_step(plan@, i as int, old_outcome, worked, other);
                    let start = before.senders()[other].sent();
                    let was = mid[other].sent();
                    let now = self.senders()[other].sent();
                    if other == id && worked {
                        assert(now.len() == was.len() + 1);
                        assert(now.subrange(0, start.len() as int) =~= was.subrange(0, start.len() as int));
                        assert forall|j: int| start.len() <= j < now.len() implies (#[trigger] now[j]).0
                            == event && aux_cloned(aux_data, now[j].1) by {
                            if j < was.len() {
                                assert(now[j] == was[j]);
                            }
                        }
                    } else {
                        assert(now == was);
                    }
                }
                lemma_delivered_step(plan@, i as int, old_outcome, worked, id);
                assert((err_idx == 0) <==> (forall|j: int| 0 <= j < i + 1 ==> outcome[j])) by {
                    if !worked {
                        assert(!outcome[i as int]);
                    }
                    if err_idx == 0 {
                        assert forall|j: int| 0 <= j < i + 1 implies outcome[j] by {
                            if j < i {
                                assert(old_outcome[j]);
                            }
                        }
                    } else {
                        if worked {
                            let j = choose|j: int| 0 <= j < i && !old_outcome[j];
                            assert(!outcome[j]);
                        }
                    }
                }
            }
            i += 1;
        }
        proof {
            assert(plan@.subrange(0, plan@.len() as int) =~= plan@);
            assert(Self::routed(old(self), self, event, aux_data, outcome));
        }
        let r = if err_idx > 0 {
            Err(
                EventRoutingErrorsWithResult {
                    result: EventRoutingResult::Handled(num_recipients, event, aux_data),
                    errors,
                },
            )
        } else {
            Ok(EventRoutingResult::Handled(num_recipients, event, aux_data))
        };
        proof {
            assert(Self::route_result(old(self), self, event, aux_data, outcome, r));
        }
        r
    }

    /// Takes one event from the receiver, if there is one, and routes it, see
    /// [`Self::route_result`]. Without an event nothing changes and the result
    /// is [`EventRoutingResult::Empty`].
    pub fn try_event_handling(&mut self) -> (r: Result<
        EventRoutingResult<Event, Aux>,
        EventRoutingErrorsWithResult<Event, Aux, S::Error>,
    >)
        requires
            old(self).wf(),
        ensures
            final(self).wf(),
            final(self).listeners() == old(self).listeners(),
            final(self).senders().dom() == old(self).senders().dom(),
            r matches Ok(EventRoutingResult::Empty) ==> final(self).senders() == old(self).senders(),
            !(r matches Ok(EventRoutingResult::Empty)) ==> exists|
                event: Event,
                aux: Option<Aux>,
                outcome: Seq<bool>,
            | #[trigger] Self::route_result(old(self), final(self), event, aux, outcome, r),
    {
        match self.event_receiver.receive() {
            Some((event, aux_data)) => {
                let ghost start = *self;
                let r = self.route_event(event, aux_data);
                proof {
                    let outcome = choose|outcome: Seq<bool>| #[trigger]
                        Self::route_result(&start, self, event, aux_data, outcome, r);
                    assert(Self::route_result(old(self), self, event, aux_data, outcome, r));
                }
                r
            },
            None => Ok(EventRoutingResult::Empty),
        }
    }
}

impl<Event, Aux, S, R> EventManager<
    Event,
    Aux,
    S,
    DefaultListenerTableProvider,
    DefaultSenderTableProvider<Event, Aux, S>,
    R,
> where
    Event: GenericEvent + Copy,
    Aux: Clone,
    S: SendEventProvider<Event, Aux>,
    R: EventReceiver<Event, Aux>,
 {
    /// A manager with empty tables of the default kind.
    pub fn new(event_receiver: R) -> (r: Self)
        ensures
            r.wf(),
            r.listeners() == Map::<ListenerKey, Seq<SenderId>>::empty(),
            r.senders() == Map::<SenderId, S>::empty(),
    {
        let listener_table = DefaultListenerTableProvider::new();
        let sender_table = DefaultSenderTableProvider::<Event, Aux, S>::new();
        Self::new_custom_tables(listener_table, sender_table, event_receiver)
    }

    /// A manager with the listener table of the default kind takes every
    /// listener: each subscription takes effect.
    pub proof fn law_subscription_takes_effect(&self, key: ListenerKey, sender_id: SenderId)
        ensures
            self.takes(key, sender_id),
    {
    }
}

/// Event routing: where every delivery of a routing worked, the number of
/// deliveries is the sum of the lengths of the lists of the event, of its group
/// and of all events, and every sender got the event, with a clone of the
/// auxiliary data, once for each time that these lists name it.
pub proof fn law_event_routing<Event, Aux, S, L, T, R>(
    before: &EventManager<Event, Aux, S, L, T, R>,
    after: &EventManager<Event, Aux, S, L, T, R>,
    event: Event,
    aux: Option<Aux>,
    outcome: Seq<bool>,
    id: SenderId,
) where
    Event: GenericEvent + Copy,
    Aux: Clone,
    S: SendEventProvider<Event, Aux>,
    L: ListenerTable,
    T: SenderTable<Event, Aux, S>,
    R: EventReceiver<Event, Aux>,

    requires
        EventManager::routed(before, after, event, aux, outcome),
        forall|j: int| 0 <= j < outcome.len() ==> outcome[j],
        before.senders().dom().contains(id),
    ensures
        ({
            let table = before.listeners();
            let single = ids_for(table, ListenerKey::Single(event.raw_largest_spec()));
            let group = ids_for(table, ListenerKey::Group(event.group_largest_spec()));
            let all = ids_for(table, ListenerKey::All);
            &&& count_true(outcome) == single.len() + group.len() + all.len()
            &&& got_copies(
                before.senders()[id].sent(),
                after.senders()[id].sent(),
                event,
                aux,
                occurrences(single + group + all, id),
            )
        }),
{
    let plan = recipients(before.listeners(), event.raw_largest_spec(), event.group_largest_spec());
    lemma_all_delivered(plan, outcome, id);
}

/// Duplicate suppression: in a list as `remove_duplicates` leaves it, a
/// listener occurs once, however often it was entered, so that a routing
/// delivers to it once for this list.
pub proof fn law_duplicate_suppression(ids: Seq<SenderId>, id: SenderId)
    requires
        crate::sorting::strictly_ascending(ids),
        ids.contains(id),
    ensures
        occurrences(ids, id) == 1,
{
    crate::sorting::lemma_ascending_no_duplicates(ids);
    lemma_occurs_once(ids, id);
}

/// An event receiver on a channel of the standard library.
#[verifier::reject_recursive_types(Event)]
pub struct MpscEventReceiver<Event> {
    mpsc_receiver: Receiver<(Event, Option<Params>)>,
}

impl<Event> MpscEventReceiver<Event> {
    /// The receiving end that the events are taken from.
    pub closed spec fn channel(&self) -> Receiver<(Event, Option<Params>)> {
        self.mpsc_receiver
    }

    /// A receiver that takes its events from `receiver`.
    pub fn new(receiver: Receiver<(Event, Option<Params>)>) -> (r: Self)
        ensures
            r.channel() == receiver,
    {
        Self { mpsc_receiver: receiver }
    }
}

impl<Event> EventReceiver<Event, Params> for MpscEventReceiver<Event> {
    fn receive(&mut self) -> Option<(Event, Option<Params>)> {
        match mpsc_try_recv(&self.mpsc_receiver) {
            Ok(event_and_data) => Some(event_and_data),
            Err(_) => None,
        }
    }
}

/// A sender of events on a channel of the standard library.
#[verifier::reject_recursive_types(Event)]
pub struct MpscEventSendProvider<Event> {
    id: u32,
    sender: Sender<(Event, Option<Params>)>,
    log: Ghost<Seq<(Event, Option<Params>)>>,
    offered: Ghost<Seq<(Event, Option<Params>)>>,
}

impl<Event> MpscEventSendProvider<Event> {
    pub fn new(id: u32, sender: Sender<(Event, Option<Params>)>) -> (r: Self)
        ensures
            r.id_spec() == id,
            r.sent() == Seq::<(Event, Option<Params>)>::empty(),
            r.offered() == Seq::<(Event, Option<Params>)>::empty(),
    {
        Self { id, sender, log: Ghost(Seq::empty()), offered: Ghost(Seq::empty()) }
    }

    /// One more sender for the same channel, with the same identifier and a log of its own.
    pub fn duplicate(&self) -> (r: Self)
        ensures
            r.id_spec() == self.id_spec(),
            r.sent() == Seq::<(Event, Option<Params>)>::empty(),
    {
        Self {
            id: self.id,
            sender: mpsc_sender_clone(&self.sender),
            log: Ghost(Seq::empty()),
            offered: Ghost(Seq::empty()),
        }
    }
}

impl<Event> SendEventProvider<Event, Params> for MpscEventSendProvider<Event> {
    type Error = SendError<(Event, Option<Params>)>;

    closed spec fn id_spec(&self) -> SenderId {
        self.id
    }

    closed spec fn sent(&self) -> Seq<(Event, Option<Params>)> {
        self.log@
    }

    closed spec fn offered(&self) -> Seq<(Event, Option<Params>)> {
        self.offered@
    }

    fn id(&self) -> (r: SenderId) {
        self.id
    }

    fn send(&mut self, event: Event, aux_data: Option<Params>) -> (r: Result<(), Self::Error>) {
        let ghost item = (event, aux_data);
        let r = mpsc_send(&self.sender, (event, aux_data));
        proof {
            self.offered@ = self.offered@.push(item);
            if r.is_ok() {
                self.log@ = self.log@.push(item);
            }
        }
        r
    }
}

} // verus!
