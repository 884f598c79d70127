//! Objects that can be addressed by an identifier, and a manager that keeps them.
use crate::index_map::IdTable;
use vstd::prelude::*;

verus! {

/// Identifies an object. The number decides; the name is for people.
#[derive(PartialEq, Eq, Hash, Copy, Clone, Debug)]
pub struct ObjectId {
    pub id: u32,
    pub name: &'static str,
}

/// An object that can be kept by an [`ObjectManager`].
pub trait SystemObject {
    type Error;

    /// The number of the identifier of the object.
    open spec fn id_spec(&self) -> u32 {
        arbitrary()
    }

    /// Whether the object was initialized with success.
    open spec fn initialized(&self) -> bool {
        arbitrary()
    }

    fn get_object_id(&self) -> (r: &ObjectId)
        ensures
            r.id == self.id_spec(),
    ;

    /// What became of the calls of `initialize`, oldest first: whether each
    /// worked.
    open spec fn init_log(&self) -> Seq<bool> {
        arbitrary()
    }

    /// Initializes the object. The object keeps its identifier, and the call
    /// is noted with its outcome.
    fn initialize(&mut self) -> (r: Result<(), Self::Error>)
        ensures
            final(self).id_spec() == old(self).id_spec(),
            final(self).init_log() == old(self).init_log().push(r.is_ok()),
            r.is_ok() ==> final(self).initialized(),
    ;
}

/// An object that an [`ObjectManager`] can keep.
pub trait ManagedSystemObject: SystemObject {

}

/// Keeps objects by the numbers of their identifiers.
pub struct ObjectManager<T: ManagedSystemObject> {
    obj_map: IdTable<T>,
}

impl<T: ManagedSystemObject> ObjectManager<T> {
    /// The objects by the numbers of their identifiers.
    pub closed spec fn objects(&self) -> Map<u32, T> {
        self.obj_map.entries()
    }

    /// The objects in the order in which they were inserted.
    pub closed spec fn in_order(&self) -> Seq<T> {
        self.obj_map.items()
    }

    /// The invariant of the manager.
    pub closed spec fn wf(&self) -> bool {
        self.obj_map.wf()
    }

    pub fn new() -> (r: Self)
        ensures
            r.wf(),
            r.objects() == Map::<u32, T>::empty(),
            r.in_order() == Seq::<T>::empty(),
    {
        ObjectManager { obj_map: IdTable::new() }
    }

    /// Takes an object, unless there is one with the same number already.
    pub fn insert(&mut self, sys_obj: T) -> (r: bool)
        requires
            old(self).wf(),
        ensures
            final(self).wf(),
            r == !old(self).objects().dom().contains(sys_obj.id_spec()),
            final(self).objects() == (if r {
                old(self).objects().insert(sys_obj.id_spec(), sys_obj)
            } else {
                old(self).objects()
            }),
            final(self).in_order() == (if r {
                old(self).in_order().push(sys_obj)
            } else {
                old(self).in_order()
            }),
    {
        let id = sys_obj.get_object_id().id;
        self.obj_map.insert(id, sys_obj)
    }

    /// `outcome` says for each object, in the order of insertion, whether
    /// its initialization worked: every object was initialized once, with
    /// that outcome; the objects for which it worked are initialized, and
    /// `count` is their number, or the largest `u32` where they are more.
    pub open spec fn initialized_as(before: &Self, after: &Self, outcome: Seq<bool>, count: u32) -> bool {
        &&& outcome.len() == before.in_order().len()
        &&& after.in_order().len() == before.in_order().len()
        &&& count == crate::event_man::clamp_u32(crate::event_man::count_true(outcome))
        &&& forall|k: int|
            0 <= k < outcome.len() ==> (#[trigger] after.in_order()[k]).init_log()
                == before.in_order()[k].init_log().push(outcome[k])
        &&& forall|k: int|
            0 <= k < outcome.len() && #[trigger] outcome[k] ==> after.in_order()[k].initialized()
    }

    /// Initializes all objects, each once and in the order of insertion, and
    /// returns for how many of them that worked, see [`Self::initialized_as`].
    /// Every object keeps its identifier and its place. Where the number is
    /// the number of all objects, all of them are initialized.
    pub fn initialize(&mut self) -> (r: u32)
        requires
            old(self).wf(),
        ensures
            final(self).wf(),
            exists|outcome: Seq<bool>| #[trigger] Self::initialized_as(old(self), final(self), outcome, r),
            final(self).in_order().len() == old(self).in_order().len(),
            forall|k: int|
                0 <= k < old(self).in_order().len() ==> (#[trigger] final(self).in_order()[k]).id_spec()
                    == old(self).in_order()[k].id_spec(),
            r <= old(self).in_order().len(),
            r == old(self).in_order().len() ==> forall|k: int|
                0 <= k < old(self).in_order().len() ==> (#[trigger] final(self).in_order()[k]).initialized(),
    {
        let mut init_success: u32 = 0;
        let mut i: usize = 0;
        let n = self.obj_map.len();
        let ghost mut outcome: Seq<bool> = Seq::empty();
        while i < n
            invariant
                i <= n,
                outcome.len() == i,
                init_success == crate::event_man::clamp_u32(crate::event_man::count_true(outcome)),
                forall|k: int| 0 <= k < i && #[trigger] outcome[k] ==> self.in_order()[k].initialized(),
                forall|k: int|
                    0 <= k < i ==> (#[trigger] self.in_order()[k]).init_log() == old(
                        self,
                    ).in_order()[k].init_log().push(outcome[k]),
                forall|k: int| i <= k < n ==> (#[trigger] self.in_order()[k]).init_log() == old(
                    self,
                ).in_order()[k].init_log(),
                n == old(self).in_order().len(),
                self.wf(),
                self.in_order().len() == n,
                init_success <= i,
                forall|k: int|
                    0 <= k < n ==> (#[trigger] self.in_order()[k]).id_spec() == old(self).in_order()[k].id_spec(),
                init_success == i ==> forall|k: int|
                    0 <= k < i ==> (#[trigger] self.in_order()[k]).initialized(),
            decreases n - i,
        {
            let ghost before = self.in_order();
            let worked = self.obj_map.item_mut(i).initialize().is_ok();
            if worked && init_success < u32::MAX {
                init_success += 1;
            }
            proof {
                let ghost earlier = outcome;
                outcome = outcome.push(worked);
                assert(outcome.drop_last() =~= earlier);
                assert forall|k: int| 0 <= k < i + 1 && #[trigger] outcome[k] implies self.in_order()[k].initialized() by {
                    if k != i {
                        assert(outcome[k] == earlier[k]);
                        assert(self.in_order()[k] == before[k]);
                    }
                }
                assert forall|k: int| 0 <= k < i + 1 implies (#[trigger] self.in_order()[k]).init_log()
                    == old(self).in_order()[k].init_log().push(outcome[k]) by {
                    if k != i {
                        assert(outcome[k] == earlier[k]);
                        assert(self.in_order()[k] == before[k]);
                    }
                }
                assert forall|k: int| i + 1 <= k < n implies (#[trigger] self.in_order()[k]).init_log()
                    == old(self).in_order()[k].init_log() by {
                    assert(self.in_order()[k] == before[k]);
                }
                assert(self.in_order() == before.update(i as int, self.in_order()[i as int]));
                assert forall|k: int| 0 <= k < n implies (#[trigger] self.in_order()[k]).id_spec() == old(
                    self,
                ).in_order()[k].id_spec() by {
                    if k != i {
                        assert(self.in_order()[k] == before[k]);
                    }
                }
                if init_success == i + 1 {
                    assert forall|k: int| 0 <= k < i + 1 implies (#[trigger] self.in_order()[k]).initialized() by {
                        if k != i {
                            assert(self.in_order()[k] == before[k]);
                        }
                    }
                }
            }
            i += 1;
        }
        proof {
            assert(Self::initialized_as(old(self), self, outcome, init_success));
        }
        init_success
    }

    /// The object with the given identifier.
    pub fn get(&self, key: &ObjectId) -> (r: Option<&T>)
        requires
            self.wf(),
        ensures
            match r {
                Some(obj) => self.objects().dom().contains(key.id) && *obj == self.objects()[key.id],
                None => !self.objects().dom().contains(key.id),
            },
    {
        self.obj_map.get(key.id)
    }
}

} // verus!
