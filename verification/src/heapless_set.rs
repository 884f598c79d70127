//! The index set of the `heapless` crate, as the backend for disabled events
//! uses it: a set of 32-bit identifiers with a fixed capacity.
//!
//! The set is kept behind the functions of this file, whose contracts say
//! what the methods of `heapless` do to the members.
use vstd::prelude::*;

verus! {

/// A `heapless::index_set::FnvIndexSet` of identifiers. Its capacity is part
/// of its type in `heapless`; the holder hides it, and each function below
/// takes the set out of the holder with the capacity that it was made with.
#[verifier::external_body]
pub struct HeaplessIdSet {
    inner: Box<dyn core::any::Any + Send>,
}

/// The members of a [`HeaplessIdSet`].
pub uninterp spec fn heapless_id_set(s: HeaplessIdSet) -> Set<u32>;

/// The capacity that a [`HeaplessIdSet`] was made with.
pub uninterp spec fn heapless_capacity(s: HeaplessIdSet) -> nat;

/// `heapless::IndexSet::new` for a set of capacity `N`: a set without
/// members. `heapless` takes a capacity that is a power of two and more than
/// one, and does not build with another.
#[verifier::external_body]
pub(crate) fn heapless_id_set_new<const N: usize>() -> (s: HeaplessIdSet)
    ensures
        heapless_id_set(s) == Set::<u32>::empty(),
        heapless_capacity(s) == N,
{
    HeaplessIdSet { inner: Box::new(heapless::index_set::FnvIndexSet::<u32, N>::new()) }
}

/// `heapless::IndexSet::contains`: whether the identifier is a member.
#[verifier::external_body]
pub(crate) fn heapless_id_set_contains<const N: usize>(s: &HeaplessIdSet, id: u32) -> (r: bool)
    requires
        heapless_capacity(*s) == N,
    ensures
        r == heapless_id_set(*s).contains(id),
{
    s.inner.downcast_ref::<heapless::index_set::FnvIndexSet<u32, N>>().unwrap().contains(&id)
}

/// `heapless::IndexSet::insert`: the identifier becomes a member, and the
/// result says whether it was none before. A set that is full takes no new
/// member: the identifier comes back as the error, and the set stays.
#[verifier::external_body]
pub(crate) fn heapless_id_set_insert<const N: usize>(s: &mut HeaplessIdSet, id: u32) -> (r: Result<
    bool,
    u32,
>)
    requires
        heapless_capacity(*old(s)) == N,
        heapless_id_set(*old(s)).finite(),
    ensures
        heapless_capacity(*final(s)) == N,
        heapless_id_set(*final(s)).finite(),
        r.is_err() == (!heapless_id_set(*old(s)).contains(id) && heapless_id_set(*old(s)).len() >= N),
        r matches Ok(fresh) ==> fresh == !heapless_id_set(*old(s)).contains(id),
        r matches Ok(_) ==> heapless_id_set(*final(s)) == heapless_id_set(*old(s)).insert(id),
        r matches Err(back) ==> back == id,
        r matches Err(_) ==> heapless_id_set(*final(s)) == heapless_id_set(*old(s)),
    no_unwind
{
    s.inner.downcast_mut::<heapless::index_set::FnvIndexSet<u32, N>>().unwrap().insert(id)
}

/// `heapless::IndexSet::remove`: the identifier is no member any more.
/// Returns whether it was one before.
#[verifier::external_body]
pub(crate) fn heapless_id_set_remove<const N: usize>(s: &mut HeaplessIdSet, id: u32) -> (r: bool)
    requires
        heapless_capacity(*old(s)) == N,
        heapless_id_set(*old(s)).finite(),
    ensures
        heapless_capacity(*final(s)) == N,
        heapless_id_set(*final(s)).finite(),
        heapless_id_set(*final(s)) == heapless_id_set(*old(s)).remove(id),
        r == heapless_id_set(*old(s)).contains(id),
    no_unwind
{
    s.inner.downcast_mut::<heapless::index_set::FnvIndexSet<u32, N>>().unwrap().remove(&id)
}

} // verus!
