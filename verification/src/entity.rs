//! A per-entity heterogeneous component store. Component values are of one
//! application-chosen type `C` (usually an enum over the application's
//! component kinds), keyed by plain `u64` kind tokens, so the store needs no
//! reflection and no type erasure.
//!
//! The entity's "shape" — the set of component kinds present — is by
//! construction the key set of the storage, so shape and storage can never
//! disagree, whichever accessor inserted or removed a component.

use std::collections::HashMap;
use std::collections::hash_map::Entry;
use vstd::prelude::*;
use vstd::std_specs::hash::EntrySpecFns;
use vstd::std_specs::hash::OccupiedEntrySpecFns;
use vstd::std_specs::hash::VacantEntrySpecFns;
use vstd::std_specs::hash::group_hash_axioms;

verus! {

broadcast use group_hash_axioms;

/// A store of at most one component value per kind token, plus the derived
/// shape (the set of kind tokens present).
pub struct Entity<C> {
    components: HashMap<u64, C>,
}

impl<C> Entity<C> {
    /// The contents as a map from kind token to component value.
    pub closed spec fn component_map(self) -> Map<u64, C> {
        self.components@
    }

    /// The shape: exactly the set of kinds with a stored component.
    pub open spec fn shape(self) -> Set<u64> {
        self.component_map().dom()
    }

    /// Empty storage, empty shape.
    pub fn new() -> (e: Self)
        ensures
            e.component_map() == Map::<u64, C>::empty(),
            e.shape() == Set::<u64>::empty(),
    {
        let e = Entity { components: HashMap::new() };
        proof {
            assert(e.shape() =~= Set::<u64>::empty());
        }
        e
    }

    /// Adds kind `kind` with `value` and returns self, for chained
    /// construction; an existing value of that kind is overwritten.
    pub fn with(self, kind: u64, value: C) -> (e: Self)
        ensures
            e.component_map() == self.component_map().insert(kind, value),
    {
        let mut e = self;
        e.components.insert(kind, value);
        e
    }

    /// Overwrites or inserts the value for `kind`. The shape records `kind`
    /// afterwards, exactly as `with` would leave it.
    pub fn set(&mut self, kind: u64, value: C)
        ensures
            final(self).component_map() == old(self).component_map().insert(kind, value),
            final(self).shape() == old(self).shape().insert(kind),
    {
        self.components.insert(kind, value);
    }

    /// The component of kind `kind`, if present.
    pub fn get(&self, kind: u64) -> (r: Option<&C>)
        ensures
            match r {
                Some(v) => self.shape().contains(kind) && *v == self.component_map()[kind],
                None => !self.shape().contains(kind),
            },
    {
        self.components.get(&kind)
    }

    /// Mutable access to the component of kind `kind`, if present. The
    /// returned borrow is tied to the borrow of the entity.
    pub fn get_mut(&mut self, kind: u64) -> (r: Option<&mut C>)
        ensures
            old(self).shape().contains(kind) ==> r is Some && *r.unwrap() == old(self).component_map()[kind] && final(self).component_map() == old(self).component_map().insert(kind, *final(r.unwrap())),
            !old(self).shape().contains(kind) ==> r is None && final(self).component_map() == old(self).component_map(),
    {
        if !self.components.contains_key(&kind) {
            return None;
        }
        match self.components.entry(kind) {
            Entry::Occupied(occ) => {
                let v = occ.into_mut();
                Some(v)
            },
            Entry::Vacant(_vac) => {
                proof {
                    assert(false);
                }
                vstd::pervasive::unreached()
            },
        }
    }

    /// Whether a component of kind `kind` is stored; by construction this is
    /// the same as shape membership.
    pub fn has(&self, kind: u64) -> (r: bool)
        ensures
            r == self.shape().contains(kind),
    {
        self.components.contains_key(&kind)
    }

    /// Deletes the component of kind `kind` from storage and shape together.
    pub fn remove(&mut self, kind: u64)
        ensures
            final(self).component_map() == old(self).component_map().remove(kind),
            final(self).shape() == old(self).shape().remove(kind),
    {
        self.deregister_component(kind);
    }

    /// Deletes the component of kind `kind`; `remove` is the short name.
    pub fn deregister_component(&mut self, kind: u64)
        ensures
            final(self).component_map() == old(self).component_map().remove(kind),
            final(self).shape() == old(self).shape().remove(kind),
    {
        self.components.remove(&kind);
    }

    /// The number of components stored.
    pub fn component_count(&self) -> (n: usize)
        ensures
            n == self.component_map().dom().len(),
    {
        self.components.len()
    }
}

/// Storing a component and reading it back returns the stored value;
/// deleting it makes the read come back empty; and membership in storage is
/// always the same thing as membership in the shape.
pub proof fn lemma_component_roundtrip<C>(e: Entity<C>, kind: u64, value: C)
    ensures
        e.component_map().insert(kind, value).dom().contains(kind),
        e.component_map().insert(kind, value)[kind] == value,
        !e.component_map().remove(kind).dom().contains(kind),
        forall|k: u64| e.shape().contains(k) <==> e.component_map().dom().contains(k),
{
}

} // verus!
