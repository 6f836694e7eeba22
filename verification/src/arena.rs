//! A generational slot container owning all entities. Insertion hands out a
//! stable `Handle` (slot index plus generation); a handle stays valid exactly
//! while the generation recorded in it matches the generation stored in its
//! slot and the slot is occupied. Removal empties the slot and bumps its
//! generation, so every handle minted before the removal is detectably stale.
//! A slot whose generation has reached the largest representable value is
//! never reused, so a generation is never silently recycled.

use crate::entity::Entity;
use vstd::prelude::*;

verus! {

/// A non-owning generational reference to an entity in the arena.
#[derive(Clone, Copy, PartialEq, Eq, Structural, Debug)]
pub struct Handle {
    /// The slot the entity lives in.
    pub index: usize,
    /// The generation the slot had when the handle was minted.
    pub generation: u64,
}

struct Slot<C> {
    generation: u64,
    occupant: Option<Entity<C>>,
}

/// The container of all entities; the sole owner of every entity inserted.
pub struct EntityArena<C> {
    slots: Vec<Slot<C>>,
}

impl<C> EntityArena<C> {
    /// Number of slots, live or free.
    pub closed spec fn slot_len(self) -> int {
        self.slots@.len() as int
    }

    /// Whether slot `i` currently holds an entity.
    pub closed spec fn live(self, i: int) -> bool {
        self.slots@[i].occupant is Some
    }

    /// The generation currently stored in slot `i`.
    pub closed spec fn gen_of(self, i: int) -> u64 {
        self.slots@[i].generation
    }

    /// The entity in slot `i` (meaningful only while `live(i)`).
    pub closed spec fn entity_at(self, i: int) -> Entity<C> {
        self.slots@[i].occupant.unwrap()
    }

    /// A handle dereferences only while its generation matches its slot's
    /// and the slot is occupied.
    pub open spec fn valid_handle(self, h: Handle) -> bool {
        &&& (h.index as int) < self.slot_len()
        &&& self.live(h.index as int)
        &&& self.gen_of(h.index as int) == h.generation
    }

    /// Slot `i` can be reused by an insertion: it is empty and its
    /// generation has room to grow on a later removal.
    pub open spec fn free_at(self, i: int) -> bool {
        !self.live(i) && self.gen_of(i) < u64::MAX
    }

    /// Two arena states agree on every slot's generation and occupancy flag;
    /// the entities themselves may differ. This is what a dispatch sweep
    /// preserves: callbacks mutate entities in place but never add, remove or
    /// re-generate slots.
    pub open spec fn same_frame(self, other: Self) -> bool {
        &&& other.slot_len() == self.slot_len()
        &&& forall|i: int|
            0 <= i < self.slot_len() ==> #[trigger] other.gen_of(i) == self.gen_of(i)
                && other.live(i) == self.live(i)
    }

    /// An empty arena.
    pub fn new() -> (a: Self)
        ensures
            a.slot_len() == 0,
    {
        EntityArena { slots: Vec::new() }
    }

    /// Number of slots, live or free.
    pub fn slot_count(&self) -> (n: usize)
        ensures
            n == self.slot_len(),
    {
        self.slots.len()
    }

    /// Whether slot `i` holds an entity.
    pub fn is_live(&self, i: usize) -> (r: bool)
        requires
            (i as int) < self.slot_len(),
        ensures
            r == self.live(i as int),
    {
        self.slots[i].occupant.is_some()
    }

    /// Inserts an entity, reusing the lowest free slot or growing by one, and
    /// returns the stable handle of the slot it now lives in.
    pub fn insert(&mut self, entity: Entity<C>) -> (h: Handle)
        requires
            old(self).slot_len() < usize::MAX,
        ensures
            final(self).valid_handle(h),
            final(self).entity_at(h.index as int) == entity,
            // the chosen slot is the lowest free one, or a fresh slot at the end
            forall|j: int| 0 <= j < h.index ==> !old(self).free_at(j),
            (h.index as int) < old(self).slot_len() ==> old(self).free_at(h.index as int)
                && final(self).slot_len() == old(self).slot_len() && h.generation == old(self).gen_of(h.index as int),
            (h.index as int) == old(self).slot_len() ==> final(self).slot_len() == old(self).slot_len() + 1 && h.generation == 0,
            (h.index as int) <= old(self).slot_len(),
            // every other slot is untouched
            forall|j: int|
                0 <= j < old(self).slot_len() && j != h.index ==> #[trigger] final(self).gen_of(j)
                    == old(self).gen_of(j) && final(self).live(j) == old(self).live(j) && (old(self).live(j) ==> final(self).entity_at(j) == old(self).entity_at(j)),
            final(self).gen_of(h.index as int) == h.generation,
    {
        let n = self.slots.len();
        let mut i: usize = 0;
        while i < n
            invariant
                n == self.slots@.len(),
                0 <= i <= n,
                *self == *old(self),
                forall|j: int| 0 <= j < i ==> !self.free_at(j),
            decreases n - i,
        {
            let free = self.slots[i].occupant.is_none() && self.slots[i].generation < u64::MAX;
            if free {
                let g = self.slots[i].generation;
                let slot = &mut self.slots[i];
                slot.occupant = Some(entity);
                return Handle { index: i, generation: g };
            }
            i += 1;
        }
        self.slots.push(Slot { generation: 0, occupant: Some(entity) });
        Handle { index: n, generation: 0 }
    }

    /// The entity a handle refers to, if the handle is still valid.
    pub fn get(&self, h: Handle) -> (r: Option<&Entity<C>>)
        ensures
            self.valid_handle(h) ==> r is Some && *r.unwrap() == self.entity_at(h.index as int),
            !self.valid_handle(h) ==> r is None,
    {
        if h.index >= self.slots.len() {
            return None;
        }
        let slot = &self.slots[h.index];
        if slot.generation != h.generation {
            return None;
        }
        match &slot.occupant {
            Some(e) => Some(e),
            None => None,
        }
    }

    /// Read access to the entity in a live slot, by slot index.
    pub fn entity_ref(&self, i: usize) -> (r: &Entity<C>)
        requires
            (i as int) < self.slot_len(),
            self.live(i as int),
        ensures
            *r == self.entity_at(i as int),
    {
        match &self.slots[i].occupant {
            Some(e) => e,
            None => {
                proof {
                    assert(false);
                }
                vstd::pervasive::unreached()
            },
        }
    }

    /// The generation currently stored in a slot.
    pub fn generation_of(&self, i: usize) -> (g: u64)
        requires
            (i as int) < self.slot_len(),
        ensures
            g == self.gen_of(i as int),
    {
        self.slots[i].generation
    }

    /// Mutable access to the entity a handle refers to, if still valid.
    pub fn get_mut(&mut self, h: Handle) -> (r: Option<&mut Entity<C>>)
        ensures
            old(self).valid_handle(h) ==> r is Some && *r.unwrap() == old(self).entity_at(
                h.index as int,
            ) && final(self).same_frame(*old(self)) && final(self).entity_at(h.index as int)
                == *final(r.unwrap()) && (forall|j: int|
                0 <= j < old(self).slot_len() && j != h.index && old(self).live(j)
                    ==> #[trigger] final(self).entity_at(j) == old(self).entity_at(j)),
            !old(self).valid_handle(h) ==> r is None && *final(self) == *old(self),
    {
        if h.index >= self.slots.len() {
            return None;
        }
        if self.slots[h.index].generation != h.generation {
            return None;
        }
        if self.slots[h.index].occupant.is_none() {
            return None;
        }
        let r = self.entity_mut_at(h.index);
        Some(r)
    }

    /// Mutable access to the entity in a live slot, by slot index.
    pub fn entity_mut_at(&mut self, i: usize) -> (r: &mut Entity<C>)
        requires
            (i as int) < old(self).slot_len(),
            old(self).live(i as int),
        ensures
            *r == old(self).entity_at(i as int),
            final(self).same_frame(*old(self)),
            final(self).entity_at(i as int) == *final(r),
            forall|j: int|
                0 <= j < old(self).slot_len() && j != i && old(self).live(j) ==> #[trigger] final(self).entity_at(j) == old(self).entity_at(j),
    {
        let slot = &mut self.slots[i];
        match &mut slot.occupant {
            Some(e) => e,
            None => {
                proof {
                    assert(false);
                }
                vstd::pervasive::unreached()
            },
        }
    }

    /// Removes the entity a handle refers to, if the handle is still valid,
    /// and bumps the slot's generation so the handle (and every older handle
    /// of that slot) goes stale.
    pub fn remove(&mut self, h: Handle) -> (r: Option<Entity<C>>)
        ensures
            old(self).valid_handle(h) ==> r is Some && r.unwrap() == old(self).entity_at(
                h.index as int,
            ) && !final(self).live(h.index as int) && !final(self).valid_handle(h) && (
            h.generation < u64::MAX ==> final(self).gen_of(h.index as int) == h.generation + 1),
            !old(self).valid_handle(h) ==> r is None && *final(self) == *old(self),
            final(self).slot_len() == old(self).slot_len(),
            forall|j: int|
                0 <= j < old(self).slot_len() && j != h.index ==> #[trigger] final(self).gen_of(j)
                    == old(self).gen_of(j) && final(self).live(j) == old(self).live(j) && (old(self).live(j) ==> final(self).entity_at(j) == old(self).entity_at(j)),
    {
        if h.index >= self.slots.len() {
            return None;
        }
        if self.slots[h.index].generation != h.generation {
            return None;
        }
        if self.slots[h.index].occupant.is_none() {
            return None;
        }
        let slot = &mut self.slots[h.index];
        let mut taken: Option<Entity<C>> = None;
        core::mem::swap(&mut slot.occupant, &mut taken);
        if slot.generation < u64::MAX {
            slot.generation = slot.generation + 1;
        }
        match taken {
            Some(e) => Some(e),
            None => {
                proof {
                    assert(false);
                }
                vstd::pervasive::unreached()
            },
        }
    }
}

} // verus!
