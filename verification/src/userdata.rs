//! The arena that owns the host values behind userdata cells.
//!
//! The engine's cell holds a handle, never an address: the arena keeps the
//! value, hands out a handle for it, and takes the handle back when the
//! value leaves. A handle that was taken back never resolves again.

use vstd::prelude::*;
use crate::context::Userdata;

verus! {

/// The handle for the slot `index` in its generation `generation`.
pub open spec fn pack(index: u32, generation: u32) -> u64 {
    ((index as u64) << 32) | (generation as u64)
}

/// The slot that `handle` names.
pub open spec fn index_of(handle: u64) -> u32 {
    (handle >> 32) as u32
}

/// The generation of its slot that `handle` belongs to.
pub open spec fn generation_of(handle: u64) -> u32 {
    (handle & 0xffff_ffff) as u32
}

/// A handle names one slot in one generation, and every pair of a slot and
/// a generation has its handle.
pub proof fn lemma_pack_unpack(index: u32, generation: u32)
    ensures
        index_of(pack(index, generation)) == index,
        generation_of(pack(index, generation)) == generation,
{
    assert((((index as u64) << 32) | (generation as u64)) >> 32 == index as u64) by (bit_vector);
    assert((((index as u64) << 32) | (generation as u64)) & 0xffff_ffff == generation as u64)
        by (bit_vector);
}

/// A handle is the one that its slot and generation pack to.
pub proof fn lemma_unpack_pack(handle: u64)
    ensures
        pack(index_of(handle), generation_of(handle)) == handle,
{
    assert((((handle >> 32) as u32 as u64) << 32) | ((handle & 0xffff_ffff) as u32 as u64)
        == handle) by (bit_vector);
}

struct Entry<T> {
    generation: u32,
    data: Option<Userdata<T>>,
}

/// The host values behind the userdata cells of one engine instance.
pub struct Arena<T> {
    slots: Vec<Entry<T>>,
}

impl<T> Arena<T> {
    /// What holds of every arena: each slot has a handle, and a slot in
    /// use has a generation left to retire into.
    pub closed spec fn wf(&self) -> bool {
        &&& self.slots@.len() <= u32::MAX
        &&& forall|i: int|
            0 <= i < self.slots@.len() && (#[trigger] self.slots@[i]).data is Some
                ==> self.slots@[i].generation < u32::MAX
    }

    /// Whether `handle` stands for a value that the arena holds.
    pub closed spec fn holds(&self, handle: u64) -> bool {
        &&& index_of(handle) < self.slots@.len()
        &&& self.slots@[index_of(handle) as int].generation == generation_of(handle)
        &&& self.slots@[index_of(handle) as int].data is Some
    }

    /// The value that `handle` stands for.
    pub closed spec fn value(&self, handle: u64) -> T {
        self.slots@[index_of(handle) as int].data->0.value()
    }

    /// Whether `handle` once stood for a value that has left the arena.
    pub closed spec fn retired(&self, handle: u64) -> bool {
        &&& index_of(handle) < self.slots@.len()
        &&& generation_of(handle) < self.slots@[index_of(handle) as int].generation
    }

    /// The number of slots that the arena has made so far. It never
    /// shrinks, and grows by one at most with each value taken in.
    pub closed spec fn slots(&self) -> nat {
        self.slots@.len()
    }

    /// Whether the arena has no handle left to give: it has made every
    /// slot that a handle can name, and each of them is in use or has run
    /// through its generations.
    pub closed spec fn full(&self) -> bool {
        &&& self.slots@.len() == u32::MAX
        &&& forall|i: int|
            0 <= i < self.slots@.len() ==> (#[trigger] self.slots@[i]).data is Some
                || self.slots@[i].generation == u32::MAX
    }

    /// An arena is full only once it has made every slot that a handle can
    /// name.
    pub proof fn lemma_full_has_every_slot(&self)
        requires
            self.full(),
        ensures
            self.slots() == u32::MAX,
    {
    }

    /// No handle is both in use and retired.
    pub proof fn lemma_retired_is_gone(&self, handle: u64)
        requires
            self.retired(handle),
        ensures
            !self.holds(handle),
    {
    }

    /// An arena that holds nothing and has every handle still to give.
    pub fn new() -> (arena: Arena<T>)
        ensures
            arena.wf(),
            arena.slots() == 0,
            !arena.full(),
            forall|handle: u64| !arena.holds(handle) && !arena.retired(handle),
    {
        Arena { slots: Vec::new() }
    }

    /// The first slot that is free to take a value, if there is one.
    fn vacancy(&self) -> (r: Option<usize>)
        requires
            self.wf(),
        ensures
            match r {
                Some(i) => i < self.slots@.len() && self.slots@[i as int].data is None
                    && self.slots@[i as int].generation < u32::MAX,
                None => forall|i: int|
                    0 <= i < self.slots@.len() ==> (#[trigger] self.slots@[i]).data is Some
                        || self.slots@[i].generation == u32::MAX,
            },
    {
        let mut i: usize = 0;
        while i < self.slots.len()
            invariant
                i <= self.slots@.len(),
                forall|j: int|
                    0 <= j < i ==> (#[trigger] self.slots@[j]).data is Some
                        || self.slots@[j].generation == u32::MAX,
            decreases self.slots@.len() - i,
        {
            if self.slots[i].data.is_none() && self.slots[i].generation < u32::MAX {
                return Some(i);
            }
            i += 1;
        }
        None
    }

    /// Takes `data` into the arena and gives the handle that stands for it
    /// from now on: one that is not in use and never was. Only an arena
    /// that has run out of handles refuses.
    pub fn insert(&mut self, data: Userdata<T>) -> (r: Option<u64>)
        requires
            old(self).wf(),
        ensures
            final(self).wf(),
            old(self).slots() <= final(self).slots() <= old(self).slots() + 1,
            match r {
                Some(handle) => {
                    &&& !old(self).full()
                    &&& !old(self).holds(handle)
                    &&& !old(self).retired(handle)
                    &&& final(self).holds(handle)
                    &&& final(self).value(handle) == data.value()
                    &&& forall|other: u64|
                        other != handle ==> {
                            &&& final(self).holds(other) == old(self).holds(other)
                            &&& final(self).retired(other) == old(self).retired(other)
                            &&& old(self).holds(other) ==> final(self).value(other) == old(
                                self,
                            ).value(other)
                        }
                },
                None => old(self).full() && old(self).slots() == u32::MAX && *final(self) == *old(
                    self,
                ),
            },
    {
        match self.vacancy() {
            Some(i) => {
                let generation = self.slots[i].generation;
                let handle = ((i as u64) << 32) | (generation as u64);
                proof {
                    lemma_pack_unpack(i as u32, generation);
                    assert forall|other: u64| other != handle implies index_of(other) != i
                        || generation_of(other) != generation by {
                        lemma_unpack_pack(other);
                    }
                }
                self.slots.set(i, Entry { generation, data: Some(data) });
                Some(handle)
            },
            None => {
                if self.slots.len() < u32::MAX as usize {
                    let i = self.slots.len();
                    let handle = (i as u64) << 32;
                    proof {
                        lemma_pack_unpack(i as u32, 0);
                        assert(((i as u64) << 32) | 0u64 == (i as u64) << 32) by (bit_vector);
                        assert forall|other: u64| other != handle implies index_of(other) != i
                            || generation_of(other) != 0 by {
                            lemma_unpack_pack(other);
                        }
                    }
                    self.slots.push(Entry { generation: 0, data: Some(data) });
                    Some(handle)
                } else {
                    None
                }
            },
        }
    }

    /// Whether `handle` stands for a value that the arena holds, and the
    /// slot it names.
    fn locate(&self, handle: u64) -> (r: Option<usize>)
        requires
            self.wf(),
        ensures
            match r {
                Some(i) => self.holds(handle) && i == index_of(handle),
                None => !self.holds(handle),
            },
    {
        let index = (handle >> 32) as usize;
        let generation = (handle & 0xffff_ffff) as u32;
        assert(handle >> 32 <= 0xffff_ffff) by (bit_vector);
        assert(handle & 0xffff_ffff <= 0xffff_ffff) by (bit_vector);
        if index < self.slots.len() && self.slots[index].generation == generation
            && self.slots[index].data.is_some() {
            Some(index)
        } else {
            None
        }
    }

    /// The value that `handle` stands for, where it stands for one. The
    /// arena keeps the value.
    pub fn get(&self, handle: u64) -> (r: Option<&T>)
        requires
            self.wf(),
        ensures
            match r {
                Some(value) => self.holds(handle) && *value == self.value(handle),
                None => !self.holds(handle),
            },
    {
        match self.locate(handle) {
            Some(i) => match &self.slots[i].data {
                Some(data) => Some(data.get()),
                None => None,
            },
            None => None,
        }
    }

    /// Puts `value` in place of the value that `handle` stands for, and
    /// gives the old one. A handle that stands for nothing gets the value
    /// back.
    pub fn replace(&mut self, handle: u64, value: T) -> (r: Result<Box<T>, T>)
        requires
            old(self).wf(),
        ensures
            final(self).wf(),
            final(self).slots() == old(self).slots(),
            final(self).full() == old(self).full(),
            forall|other: u64|
                {
                    &&& final(self).holds(other) == old(self).holds(other)
                    &&& final(self).retired(other) == old(self).retired(other)
                    &&& other != handle && old(self).holds(other) ==> final(self).value(other)
                        == old(self).value(other)
                },
            match r {
                Ok(previous) => {
                    &&& old(self).holds(handle)
                    &&& *previous == old(self).value(handle)
                    &&& final(self).value(handle) == value
                },
                Err(given) => !old(self).holds(handle) && given == value && *final(self) == *old(
                    self,
                ),
            },
    {
        match self.locate(handle) {
            Some(i) => {
                let generation = self.slots[i].generation;
                let mut entry = Entry { generation, data: Some(Userdata::new(value)) };
                self.slots.set_and_swap(i, &mut entry);
                proof {
                    if self.full() {
                        assert forall|j: int| 0 <= j < old(self).slots@.len() implies (
                        #[trigger] old(self).slots@[j]).data is Some || old(
                            self,
                        ).slots@[j].generation == u32::MAX by {
                            let now = self.slots@[j];
                        }
                    }
                    if old(self).full() {
                        assert forall|j: int| 0 <= j < self.slots@.len() implies (
                        #[trigger] self.slots@[j]).data is Some || self.slots@[j].generation
                            == u32::MAX by {
                            let before = old(self).slots@[j];
                        }
                    }
                    assert forall|other: u64| other != handle implies index_of(other) != i
                        || generation_of(other) != generation by {
                        lemma_unpack_pack(other);
                        lemma_unpack_pack(handle);
                    }
                }
                match entry.data {
                    Some(data) => Ok(data.as_box()),
                    None => Err(vstd::pervasive::unreached()),
                }
            },
            None => Err(value),
        }
    }

    /// Takes the value that `handle` stands for out of the arena, and
    /// retires the handle. A handle that stands for nothing yields
    /// nothing, so that no value is claimed twice.
    pub fn remove(&mut self, handle: u64) -> (r: Option<Box<T>>)
        requires
            old(self).wf(),
        ensures
            final(self).wf(),
            !final(self).holds(handle),
            final(self).slots() == old(self).slots(),
            final(self).full() ==> old(self).full(),
            forall|other: u64|
                other != handle ==> {
                    &&& final(self).holds(other) == old(self).holds(other)
                    &&& final(self).retired(other) == old(self).retired(other)
                    &&& old(self).holds(other) ==> final(self).value(other) == old(self).value(
                        other,
                    )
                },
            match r {
                Some(value) => {
                    &&& old(self).holds(handle)
                    &&& *value == old(self).value(handle)
                    &&& final(self).retired(handle)
                },
                None => !old(self).holds(handle) && *final(self) == *old(self),
            },
    {
        match self.locate(handle) {
            Some(i) => {
                let generation = self.slots[i].generation;
                let mut entry = Entry { generation: generation + 1, data: None };
                self.slots.set_and_swap(i, &mut entry);
                proof {
                    if self.full() {
                        assert forall|j: int| 0 <= j < old(self).slots@.len() implies (
                        #[trigger] old(self).slots@[j]).data is Some || old(
                            self,
                        ).slots@[j].generation == u32::MAX by {
                            let now = self.slots@[j];
                        }
                    }
                    assert forall|other: u64| other != handle implies index_of(other) != i
                        || generation_of(other) != generation by {
                        lemma_unpack_pack(other);
                        lemma_unpack_pack(handle);
                    }
                }
                match entry.data {
                    Some(data) => Some(data.as_box()),
                    None => None,
                }
            },
            None => None,
        }
    }
}

} // verus!
