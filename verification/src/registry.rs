//! Opaque handles and the registry that owns the instances behind them.
//!
//! A handle names a slot of the registry and the generation of the instance
//! that the slot held when the handle was issued. Destroying an instance
//! leaves the slot's generation in place and the next instance in that slot
//! gets the following one, so a destroyed handle never names a later instance.

use vstd::prelude::*;

verus! {

/// Number of raw values that one half of a handle can take.
pub const HALF: u64 = 0x1_0000_0000;

/// An opaque reference to one instance.
#[derive(Clone, Copy, Debug, PartialEq, Eq, Structural)]
pub struct Handle {
    pub index: u32,
    pub generation: u32,
}

impl Handle {
    /// The handle that stands for "no instance": generation zero is never issued.
    pub open spec fn is_null(self) -> bool {
        self.generation == 0
    }

    /// The integer that carries this handle across the boundary.
    pub open spec fn raw(self) -> u64 {
        (self.generation as u64 * HALF + self.index as u64) as u64
    }

    /// The null handle, whose raw value is zero.
    pub fn null() -> (handle: Handle)
        ensures
            handle.is_null(),
            handle.raw() == 0,
    {
        Handle { index: 0, generation: 0 }
    }

    /// Whether this handle is one that is never issued.
    pub fn check_null(self) -> (null: bool)
        ensures
            null == self.is_null(),
    {
        self.generation == 0
    }

    /// The integer that carries this handle across the boundary.
    pub fn to_raw(self) -> (raw: u64)
        ensures
            raw == self.raw(),
            raw / HALF == self.generation,
            raw % HALF == self.index,
    {
        self.generation as u64 * HALF + self.index as u64
    }

    /// The handle that an integer carries. Every integer is some handle; a
    /// raw value below `HALF`, zero among them, is a null handle.
    pub fn from_raw(raw: u64) -> (handle: Handle)
        ensures
            handle.raw() == raw,
            handle.generation == raw / HALF,
            handle.index == raw % HALF,
    {
        Handle { index: (raw % HALF) as u32, generation: (raw / HALF) as u32 }
    }
}

/// Two handles with the same raw value are the same handle.
pub proof fn lemma_raw_injective(a: Handle, b: Handle)
    ensures
        a.raw() == b.raw() <==> a == b,
{
}

struct Slot<T> {
    generation: u32,
    instance: Option<T>,
}

spec fn names<T>(slots: Seq<Slot<T>>, handle: Handle) -> bool {
    &&& handle.index < slots.len()
    &&& handle.generation >= 1
    &&& slots[handle.index as int].generation == handle.generation
    &&& slots[handle.index as int].instance is Some
}

spec fn live<T>(slots: Seq<Slot<T>>) -> Map<Handle, T> {
    Map::new(
        |handle: Handle| names(slots, handle),
        |handle: Handle| slots[handle.index as int].instance->0,
    )
}

spec fn gone<T>(slots: Seq<Slot<T>>) -> Set<Handle> {
    Set::new(
        |handle: Handle|
            {
                &&& handle.index < slots.len()
                &&& 1 <= handle.generation <= slots[handle.index as int].generation
                &&& !names(slots, handle)
            },
    )
}

/// The table of instances, each reached through the handle issued for it.
pub struct Registry<T> {
    slots: Vec<Slot<T>>,
}

impl<T> Registry<T> {
    /// The registry's internal invariant, which `new` establishes and every
    /// method keeps.
    pub closed spec fn wf(self) -> bool {
        self.slots@.len() <= u32::MAX
    }

    /// The live instances, by handle.
    pub closed spec fn view(self) -> Map<Handle, T> {
        live(self.slots@)
    }

    /// The handles whose instance was destroyed.
    pub closed spec fn retired(self) -> Set<Handle> {
        gone(self.slots@)
    }

    /// The number of slots in use or used before.
    pub closed spec fn slot_count(self) -> nat {
        self.slots@.len()
    }

    /// No further instance can be taken in: every slot that could be had is
    /// occupied or has issued its last generation.
    pub closed spec fn is_exhausted(self) -> bool {
        &&& self.slots@.len() == u32::MAX
        &&& forall|i: int|
            0 <= i < self.slots@.len() ==> {
                ||| (#[trigger] self.slots@[i]).instance is Some
                ||| self.slots@[i].generation == u32::MAX
            }
    }

    /// An empty registry.
    pub fn new() -> (registry: Registry<T>)
        ensures
            registry.wf(),
            registry@ == Map::<Handle, T>::empty(),
            registry.retired() == Set::<Handle>::empty(),
            registry.slot_count() == 0,
    {
        let registry = Registry { slots: Vec::new() };
        assert(registry@ =~= Map::<Handle, T>::empty());
        assert(registry.retired() =~= Set::<Handle>::empty());
        registry
    }

    /// Whether `handle` names a live instance.
    pub fn is_live(&self, handle: Handle) -> (live: bool)
        ensures
            live == self@.dom().contains(handle),
    {
        let index: usize = handle.index as usize;
        if index >= self.slots.len() {
            return false;
        }
        let slot = &self.slots[index];
        handle.generation >= 1 && slot.generation == handle.generation && slot.instance.is_some()
    }

    /// The instance that `handle` names, if it is live.
    pub fn get(&self, handle: Handle) -> (instance: Option<&T>)
        ensures
            self@.dom().contains(handle) ==> instance == Some(&self@[handle]),
            !self@.dom().contains(handle) ==> instance is None,
    {
        let index: usize = handle.index as usize;
        if index >= self.slots.len() {
            return None;
        }
        let slot = &self.slots[index];
        if handle.generation == 0 || slot.generation != handle.generation {
            return None;
        }
        slot.instance.as_ref()
    }

    /// The instance that `handle` names, for changing it in place.
    pub fn get_mut(&mut self, handle: Handle) -> (instance: Option<&mut T>)
        requires
            old(self).wf(),
        ensures
            final(self).wf(),
            final(self).retired() == old(self).retired(),
            final(self).slot_count() == old(self).slot_count(),
            !old(self)@.dom().contains(handle) ==> instance is None && final(self)@ == old(self)@,
            old(self)@.dom().contains(handle) ==> {
                &&& instance matches Some(place)
                &&& *place == old(self)@[handle]
                &&& final(self)@ == old(self)@.insert(handle, *final(place))
            },
    {
        if !self.is_live(handle) {
            return None;
        }
        let index: usize = handle.index as usize;
        let slot = &mut self.slots[index];
        match &mut slot.instance {
            Some(place) => {
                proof {
                    let after = old(self).slots@.update(
                        index as int,
                        Slot { generation: handle.generation, instance: Some(*final(place)) },
                    );
                    assert(live(after) =~= old(self)@.insert(handle, *final(place)));
                    assert(gone(after) =~= old(self).retired());
                }
                Some(place)
            },
            None => None,
        }
    }

    /// Whether `create` would fail.
    pub fn check_exhausted(&self) -> (exhausted: bool)
        requires
            self.wf(),
        ensures
            exhausted == self.is_exhausted(),
    {
        if self.slots.len() < u32::MAX as usize {
            return false;
        }
        let mut i: usize = 0;
        while i < self.slots.len()
            invariant
                i <= self.slots@.len(),
                self.slots@.len() == u32::MAX,
                forall|j: int|
                    0 <= j < i ==> {
                        ||| (#[trigger] self.slots@[j]).instance is Some
                        ||| self.slots@[j].generation == u32::MAX
                    },
            decreases self.slots@.len() - i,
        {
            let slot = &self.slots[i];
            if slot.instance.is_none() && slot.generation < u32::MAX {
                return false;
            }
            i += 1;
        }
        true
    }

    /// Takes ownership of `instance` and issues a handle for it.
    ///
    /// Returns the null handle, and drops the instance, when the registry is
    /// exhausted.
    pub fn create(&mut self, instance: T) -> (handle: Handle)
        requires
            old(self).wf(),
        ensures
            final(self).wf(),
            handle.is_null() <==> old(self).is_exhausted(),
            handle.is_null() ==> final(self)@ == old(self)@ && final(self).slot_count() == old(
                self,
            ).slot_count(),
            !handle.is_null() ==> {
                &&& !old(self)@.dom().contains(handle)
                &&& !old(self).retired().contains(handle)
                &&& final(self)@ == old(self)@.insert(handle, instance)
                &&& old(self).slot_count() <= final(self).slot_count() <= old(self).slot_count()
                    + 1
            },
            final(self).retired() == old(self).retired(),
    {
        let n: usize = self.slots.len();
        let mut i: usize = 0;
        while i < n
            invariant
                i <= n,
                n == self.slots@.len(),
                n <= u32::MAX,
                *self == *old(self),
                forall|j: int|
                    0 <= j < i ==> {
                        ||| (#[trigger] self.slots@[j]).instance is Some
                        ||| self.slots@[j].generation == u32::MAX
                    },
            decreases n - i,
        {
            if self.slots[i].instance.is_none() && self.slots[i].generation < u32::MAX {
                let generation: u32 = self.slots[i].generation + 1;
                let handle = Handle { index: i as u32, generation };
                self.slots[i] = Slot { generation, instance: Some(instance) };
                proof {
                    assert(self@ =~= old(self)@.insert(handle, instance));
                    assert(self.retired() =~= old(self).retired());
                }
                return handle;
            }
            i += 1;
        }
        if n < u32::MAX as usize {
            let handle = Handle { index: n as u32, generation: 1 };
            self.slots.push(Slot { generation: 1, instance: Some(instance) });
            proof {
                assert(self@ =~= old(self)@.insert(handle, instance));
                assert(self.retired() =~= old(self).retired());
            }
            return handle;
        }
        Handle::null()
    }

    /// Releases the instance that `handle` names and hands it back.
    ///
    /// From then on the handle is retired: it names no instance, now or later.
    pub fn destroy(&mut self, handle: Handle) -> (instance: Option<T>)
        requires
            old(self).wf(),
        ensures
            final(self).wf(),
            old(self)@.dom().contains(handle) ==> {
                &&& instance == Some(old(self)@[handle])
                &&& final(self)@ == old(self)@.remove(handle)
                &&& final(self).retired() == old(self).retired().insert(handle)
            },
            !old(self)@.dom().contains(handle) ==> {
                &&& instance is None
                &&& final(self)@ == old(self)@
                &&& final(self).retired() == old(self).retired()
            },
            final(self).slot_count() == old(self).slot_count(),
    {
        if !self.is_live(handle) {
            return None;
        }
        let index: usize = handle.index as usize;
        let instance = self.slots[index].instance.take();
        proof {
            assert(self.slots@[index as int].generation == handle.generation);
            assert(self@ =~= old(self)@.remove(handle));
            assert(self.retired() =~= old(self).retired().insert(handle));
        }
        instance
    }

    /// A registry with fewer slots than handles can index has room.
    pub proof fn lemma_room_below_limit(self)
        requires
            self.slot_count() < u32::MAX,
        ensures
            !self.is_exhausted(),
    {
    }

    /// A retired handle names no instance.
    pub proof fn lemma_retired_not_live(self, handle: Handle)
        requires
            self.retired().contains(handle),
        ensures
            !self@.dom().contains(handle),
    {
    }

    /// The null handle names no instance and is never retired.
    pub proof fn lemma_null_not_live(self, handle: Handle)
        requires
            handle.is_null(),
        ensures
            !self@.dom().contains(handle),
            !self.retired().contains(handle),
    {
    }
}

} // verus!
