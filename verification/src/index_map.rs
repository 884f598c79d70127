//! Hash containers of the `hashbrown` crate, as the tables of the library use
//! them: a map from a 64-bit key to a position in a list, and a set of 32-bit
//! identifiers.
//!
//! The containers are kept behind the functions of this file, whose contracts
//! say what the methods of `hashbrown` do to the entries.
use vstd::prelude::*;

verus! {

/// A `hashbrown::HashMap` from a key to a position.
#[verifier::external_body]
pub struct IndexMap {
    inner: hashbrown::HashMap<u64, usize>,
}

/// The entries of an [`IndexMap`].
pub uninterp spec fn index_map(m: IndexMap) -> Map<u64, usize>;

/// `hashbrown::HashMap::new`: a map without entries.
#[verifier::external_body]
pub(crate) fn index_map_new() -> (m: IndexMap)
    ensures
        index_map(m).dom() == Set::<u64>::empty(),
{
    IndexMap { inner: hashbrown::HashMap::new() }
}

/// `hashbrown::HashMap::contains_key`: whether the map has an entry for the key.
#[verifier::external_body]
pub(crate) fn index_map_contains_key(m: &IndexMap, key: u64) -> (r: bool)
    ensures
        r == index_map(*m).dom().contains(key),
{
    m.inner.contains_key(&key)
}

/// `hashbrown::HashMap::get`: the value of the entry for the key, if there is one.
#[verifier::external_body]
pub(crate) fn index_map_get(m: &IndexMap, key: u64) -> (r: Option<usize>)
    ensures
        r == (if index_map(*m).dom().contains(key) {
            Some(index_map(*m)[key])
        } else {
            None
        }),
{
    m.inner.get(&key).copied()
}

/// `hashbrown::HashMap::insert`: the entry for the key is set to the value,
/// every other entry stays. Returns the value that was there before.
#[verifier::external_body]
pub(crate) fn index_map_insert(m: &mut IndexMap, key: u64, value: usize) -> (r: Option<usize>)
    ensures
        index_map(*final(m)) == index_map(*old(m)).insert(key, value),
        r == (if index_map(*old(m)).dom().contains(key) {
            Some(index_map(*old(m))[key])
        } else {
            None
        }),
{
    m.inner.insert(key, value)
}

/// `hashbrown::HashMap::keys`, collected: every key of the map once, in an
/// order that is not fixed.
#[verifier::external_body]
pub(crate) fn index_map_keys(m: &IndexMap) -> (r: Vec<u64>)
    ensures
        r@.no_duplicates(),
        forall|k: u64| r@.contains(k) <==> index_map(*m).dom().contains(k),
{
    m.inner.keys().copied().collect()
}

/// A `hashbrown::HashSet` of identifiers.
#[verifier::external_body]
pub struct IdSet {
    inner: hashbrown::HashSet<u32>,
}

/// The members of an [`IdSet`].
pub uninterp spec fn id_set(s: IdSet) -> Set<u32>;

/// `hashbrown::HashSet::new`: a set without members.
#[verifier::external_body]
pub(crate) fn id_set_new() -> (s: IdSet)
    ensures
        id_set(s) == Set::<u32>::empty(),
{
    IdSet { inner: hashbrown::HashSet::new() }
}

/// `hashbrown::HashSet::contains`: whether the identifier is a member.
#[verifier::external_body]
pub(crate) fn id_set_contains(s: &IdSet, id: u32) -> (r: bool)
    ensures
        r == id_set(*s).contains(id),
{
    s.inner.contains(&id)
}

/// `hashbrown::HashSet::insert`: the identifier becomes a member. Returns
/// whether it was none before.
#[verifier::external_body]
pub(crate) fn id_set_insert(s: &mut IdSet, id: u32) -> (r: bool)
    ensures
        id_set(*final(s)) == id_set(*old(s)).insert(id),
        r == !id_set(*old(s)).contains(id),
{
    s.inner.insert(id)
}

/// `hashbrown::HashSet::remove`: the identifier is no member any more.
/// Returns whether it was one before.
#[verifier::external_body]
pub(crate) fn id_set_remove(s: &mut IdSet, id: u32) -> (r: bool)
    ensures
        id_set(*final(s)) == id_set(*old(s)).remove(id),
        r == id_set(*old(s)).contains(id),
{
    s.inner.remove(&id)
}


/// Some key has the place `k`.
spec fn placed(places: Map<u64, usize>, k: int) -> bool {
    exists|c: u64| #[trigger] places.dom().contains(c) && places[c] == k
}

/// A table of items by identifier: the items in a list and a hash map from
/// the identifiers to their places.
pub struct IdTable<T> {
    index: IndexMap,
    list: Vec<T>,
}

impl<T> IdTable<T> {
    spec fn places(&self) -> Map<u64, usize> {
        index_map(self.index)
    }

    /// The items by their identifiers.
    pub closed spec fn entries(&self) -> Map<u32, T> {
        Map::new(
            |id: u32| self.places().dom().contains(id as u64),
            |id: u32| self.list@[self.places()[id as u64] as int],
        )
    }

    /// The items in the order in which they were entered.
    pub closed spec fn items(&self) -> Seq<T> {
        self.list@
    }

    /// The invariant of the table: every identifier has a place of its own.
    pub closed spec fn wf(&self) -> bool {
        &&& forall|c: u64| #[trigger]
            self.places().dom().contains(c) ==> self.places()[c] < self.list@.len() && c <= u32::MAX
        &&& forall|c: u64, d: u64|
            self.places().dom().contains(c) && self.places().dom().contains(d) && c != d
                ==> self.places()[c] != self.places()[d]
        &&& forall|k: int| 0 <= k < self.list@.len() ==> #[trigger] placed(self.places(), k)
    }

    pub fn new() -> (r: Self)
        ensures
            r.wf(),
            r.entries() == Map::<u32, T>::empty(),
            r.items() == Seq::<T>::empty(),
    {
        let r = IdTable { index: index_map_new(), list: Vec::new() };
        assert(r.entries() =~= Map::<u32, T>::empty());
        r
    }

    /// The number of items.
    pub fn len(&self) -> (r: usize)
        ensures
            r == self.items().len(),
    {
        self.list.len()
    }

    pub fn contains(&self, id: u32) -> (r: bool)
        ensures
            r == self.entries().dom().contains(id),
    {
        index_map_contains_key(&self.index, id as u64)
    }

    /// Enters `item` under `id`, unless the identifier is taken.
    pub fn insert(&mut self, id: u32, item: T) -> (r: bool)
        requires
            old(self).wf(),
        ensures
            final(self).wf(),
            r == !old(self).entries().dom().contains(id),
            final(self).entries() == (if r {
                old(self).entries().insert(id, item)
            } else {
                old(self).entries()
            }),
            final(self).items() == (if r {
                old(self).items().push(item)
            } else {
                old(self).items()
            }),
    {
        if index_map_contains_key(&self.index, id as u64) {
            return false;
        }
        let place = self.list.len();
        self.list.push(item);
        let previous = index_map_insert(&mut self.index, id as u64, place);
        proof {
            assert forall|k: u32| #[trigger] self.entries().dom().contains(k) && k != id implies old(
                self,
            ).entries().dom().contains(k) && self.entries()[k] == old(self).entries()[k] by {
                assert(old(self).places().dom().contains(k as u64));
            }
            assert(self.entries() =~= old(self).entries().insert(id, item));
            assert forall|k: int| 0 <= k < self.list@.len() implies #[trigger] placed(
                self.places(),
                k,
            ) by {
                if k < place {
                    assert(placed(old(self).places(), k));
                    let c = choose|c: u64| #[trigger]
                        old(self).places().dom().contains(c) && old(self).places()[c] == k;
                    assert(self.places().dom().contains(c) && self.places()[c] == k);
                } else {
                    assert(self.places().dom().contains(id as u64) && self.places()[id as u64] == k);
                }
            }
        }
        true
    }

    /// The item with identifier `id`.
    pub fn get(&self, id: u32) -> (r: Option<&T>)
        requires
            self.wf(),
        ensures
            match r {
                Some(item) => self.entries().dom().contains(id) && *item == self.entries()[id],
                None => !self.entries().dom().contains(id),
            },
    {
        match index_map_get(&self.index, id as u64) {
            Some(place) => {
                assert(self.places().dom().contains(id as u64));
                Some(&self.list[place])
            },
            None => None,
        }
    }

    /// The item with identifier `id`, open for changes.
    pub fn get_mut(&mut self, id: u32) -> (r: Option<&mut T>)
        requires
            old(self).wf(),
        ensures
            final(self).wf(),
            match r {
                Some(item) => {
                    &&& old(self).entries().dom().contains(id)
                    &&& *item == old(self).entries()[id]
                    &&& final(self).entries() == old(self).entries().insert(id, *final(item))
                },
                None => !old(self).entries().dom().contains(id) && final(self).entries() == old(
                    self).entries(),
            },
    {
        match index_map_get(&self.index, id as u64) {
            Some(place) => {
                assert(self.places().dom().contains(id as u64));
                Some(&mut self.list[place])
            },
            None => None,
        }
    }

    /// The item at position `k` of the list, open for changes.
    pub fn item_mut(&mut self, k: usize) -> (r: &mut T)
        requires
            old(self).wf(),
            k < old(self).items().len(),
        ensures
            final(self).wf(),
            *r == old(self).items()[k as int],
            final(self).items() == old(self).items().update(k as int, *final(r)),
    {
        let ghost places = self.places();
        assert(forall|j: int| 0 <= j < self.list@.len() ==> #[trigger] placed(places, j));
        &mut self.list[k]
    }
}

} // verus!
