//! Generational handles and the slot table behind them.
//!
//! Handles are an index plus a generation counter. A slot's generation is
//! bumped when the entry is removed, so a handle taken before the removal
//! never validates again; a slot whose counter would no longer grow is
//! retired rather than reused.

use vstd::prelude::*;

verus! {

/// An opaque generational reference to a rigid body.
#[derive(Clone, Copy, PartialEq, Eq, Structural, Debug, Hash)]
pub struct RigidBodyHandle {
    pub(crate) index: usize,
    pub(crate) generation: u64,
}

/// An opaque generational reference to a collider.
#[derive(Clone, Copy, PartialEq, Eq, Structural, Debug, Hash)]
pub struct ColliderHandle {
    pub(crate) index: usize,
    pub(crate) generation: u64,
}

pub(crate) struct Slot<T> {
    pub(crate) generation: u64,
    pub(crate) occupied: bool,
    pub(crate) value: T,
}

/// A slot table addressed by index and generation. Removal leaves the old
/// value in place and only marks the slot vacant; the value is dropped when
/// the slot is reused.
pub(crate) struct Table<T> {
    pub(crate) slots: Vec<Slot<T>>,
    pub(crate) free: Vec<usize>,
}

impl<T> Table<T> {
    /// Whether index `i` at generation `g` addresses a live entry.
    pub(crate) open spec fn valid(self, i: int, g: int) -> bool {
        &&& 0 <= i < self.slots@.len()
        &&& self.slots@[i].occupied
        &&& self.slots@[i].generation == g
    }

    /// The entry addressed by index `i` at generation `g`.
    pub(crate) open spec fn at(self, i: int, g: int) -> T {
        self.slots@[i].value
    }

    /// The free list points at distinct vacant slots whose generation can
    /// still grow, and no live slot has exhausted its generation counter.
    pub(crate) open spec fn wf(self) -> bool {
        &&& forall|k: int|
            0 <= k < self.free@.len() ==> (#[trigger] self.free@[k]) < self.slots@.len()
        &&& forall|k: int|
            0 <= k < self.free@.len() ==> !self.slots@[#[trigger] self.free@[k] as int].occupied
        &&& forall|k: int|
            0 <= k < self.free@.len() ==> self.slots@[#[trigger] self.free@[k] as int].generation
                < u64::MAX
        &&& forall|k1: int, k2: int|
            0 <= k1 < k2 < self.free@.len() ==> #[trigger] self.free@[k1] != #[trigger] self.free@[k2]
        &&& forall|i: int|
            0 <= i < self.slots@.len() && (#[trigger] self.slots@[i]).occupied
                ==> self.slots@[i].generation < u64::MAX
    }

    pub(crate) fn new() -> (r: Table<T>)
        ensures
            r.wf(),
            r.slots@.len() == 0,
            forall|i: int, g: int| !(#[trigger] r.valid(i, g)),
    {
        Table { slots: Vec::new(), free: Vec::new() }
    }

    /// Stores `value` in a fresh slot and returns its index and generation.
    pub(crate) fn insert(&mut self, value: T) -> (h: (usize, u64))
        requires
            old(self).wf(),
        ensures
            final(self).wf(),
            final(self).valid(h.0 as int, h.1 as int),
            final(self).at(h.0 as int, h.1 as int) == value,
            !old(self).valid(h.0 as int, h.1 as int),
            forall|i: int, g: int|
                !(i == h.0 && g == h.1) ==> #[trigger] final(self).valid(i, g) == old(
                    self,
                ).valid(i, g),
            forall|i: int, g: int|
                old(self).valid(i, g) && !(i == h.0 && g == h.1) ==> #[trigger] final(self).at(
                    i,
                    g,
                ) == old(self).at(i, g),
    {
        match self.free.pop() {
            Some(i) => {
                let g: u64 = self.slots[i].generation;
                self.slots.set(i, Slot { generation: g, occupied: true, value });
                (i, g)
            },
            None => {
                let i: usize = self.slots.len();
                self.slots.push(Slot { generation: 0, occupied: true, value });
                (i, 0u64)
            },
        }
    }

    /// Vacates the entry if it is live; stale or unknown addresses are
    /// ignored. Returns whether an entry was removed.
    pub(crate) fn remove(&mut self, i: usize, g: u64) -> (r: bool)
        requires
            old(self).wf(),
        ensures
            final(self).wf(),
            r == old(self).valid(i as int, g as int),
            !final(self).valid(i as int, g as int),
            final(self).slots@.len() == old(self).slots@.len(),
            forall|i2: int, g2: int|
                !(i2 == i && g2 == g) ==> #[trigger] final(self).valid(i2, g2) == old(
                    self,
                ).valid(i2, g2),
            forall|i2: int, g2: int|
                old(self).valid(i2, g2) && !(i2 == i && g2 == g) ==> #[trigger] final(self).at(
                    i2,
                    g2,
                ) == old(self).at(i2, g2),
    {
        if i < self.slots.len() && self.slots[i].occupied && self.slots[i].generation == g {
            proof {
                assert forall|k: int| 0 <= k < self.free@.len() implies self.free@[k] != i by {
                    assert(!self.slots@[self.free@[k] as int].occupied);
                }
            }
            let newgen: u64 = g + 1;
            {
                let slot = &mut self.slots[i];
                slot.occupied = false;
                slot.generation = newgen;
            }
            if newgen < u64::MAX {
                self.free.push(i);
            }
            true
        } else {
            false
        }
    }

    /// Whether the address is live.
    pub(crate) fn contains(&self, i: usize, g: u64) -> (r: bool)
        ensures
            r == self.valid(i as int, g as int),
    {
        i < self.slots.len() && self.slots[i].occupied && self.slots[i].generation == g
    }

    /// Reads the entry if the address is live.
    pub(crate) fn get(&self, i: usize, g: u64) -> (r: Option<&T>)
        ensures
            match r {
                Some(v) => self.valid(i as int, g as int) && *v == self.at(i as int, g as int),
                None => !self.valid(i as int, g as int),
            },
    {
        if i < self.slots.len() && self.slots[i].occupied && self.slots[i].generation == g {
            Some(&self.slots[i].value)
        } else {
            None
        }
    }

    /// Borrows a live entry for in-place update.
    pub(crate) fn borrow_mut(&mut self, i: usize, g: u64) -> (r: &mut T)
        requires
            old(self).wf(),
            old(self).valid(i as int, g as int),
        ensures
            *r == old(self).at(i as int, g as int),
            final(self).wf(),
            final(self).slots@.len() == old(self).slots@.len(),
            final(self).free@ == old(self).free@,
            final(self).valid(i as int, g as int),
            final(self).at(i as int, g as int) == *final(r),
            forall|i2: int, g2: int|
                #[trigger] final(self).valid(i2, g2) == old(self).valid(i2, g2),
            forall|i2: int, g2: int|
                old(self).valid(i2, g2) && !(i2 == i && g2 == g) ==> #[trigger] final(self).at(
                    i2,
                    g2,
                ) == old(self).at(i2, g2),
    {
        &mut self.slots[i].value
    }

    /// The generation of the live entry at index `i`, if the slot holds
    /// one.
    pub(crate) fn generation_if_live(&self, i: usize) -> (r: Option<u64>)
        ensures
            match r {
                Some(g) => self.valid(i as int, g as int),
                None => forall|g: int| !(#[trigger] self.valid(i as int, g)),
            },
    {
        if i < self.slots.len() && self.slots[i].occupied {
            Some(self.slots[i].generation)
        } else {
            None
        }
    }

    /// The number of slots ever created, live or vacant.
    pub(crate) fn slot_count(&self) -> (r: usize)
        ensures
            r == self.slots@.len(),
    {
        self.slots.len()
    }
}

} // verus!
