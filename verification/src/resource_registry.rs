//! A registry of singleton values shared across systems. A resource is keyed
//! by a plain `u64` kind token, optionally further keyed by a distinct tag
//! token so several singletons of the same underlying kind can coexist.
//! At most one resource exists per (tag, kind) pair; a later `set` of the
//! same slot overwrites silently.

use std::collections::HashMap;
use vstd::prelude::*;
use vstd::std_specs::hash::group_hash_axioms;

verus! {

broadcast use group_hash_axioms;

/// The storage key of a tagged resource slot: the tag in the high half,
/// the kind in the low half, so distinct (tag, kind) pairs never collide.
pub open spec fn res_key(tag: u64, kind: u64) -> u128 {
    ((tag as u128) << 64u128) | (kind as u128)
}

/// Distinct (tag, kind) pairs store under distinct keys, so a tagged slot
/// can never overwrite or shadow another: the composite key is injective.
pub proof fn lemma_res_key_injective(tag_a: u64, kind_a: u64, tag_b: u64, kind_b: u64)
    ensures
        res_key(tag_a, kind_a) == res_key(tag_b, kind_b) ==> tag_a == tag_b && kind_a == kind_b,
{
    assert((((tag_a as u128) << 64u128) | (kind_a as u128)) == (((tag_b as u128) << 64u128) | (
    kind_b as u128)) ==> tag_a == tag_b && kind_a == kind_b) by (bit_vector);
}

/// The type-keyed (optionally tag-keyed) store of singleton values.
pub struct ResourceRegistry<R> {
    plain: HashMap<u64, R>,
    tagged: HashMap<u128, R>,
}

impl<R> ResourceRegistry<R> {
    /// The untagged singletons, by kind token.
    pub closed spec fn plain_map(self) -> Map<u64, R> {
        self.plain@
    }

    /// The tagged singletons, by composite `res_key(tag, kind)`.
    pub closed spec fn tagged_map(self) -> Map<u128, R> {
        self.tagged@
    }

    /// An empty registry.
    pub fn new() -> (r: Self)
        ensures
            r.plain_map() == Map::<u64, R>::empty(),
            r.tagged_map() == Map::<u128, R>::empty(),
    {
        ResourceRegistry { plain: HashMap::new(), tagged: HashMap::new() }
    }

    /// Stores the singleton of kind `kind`, overwriting any previous one.
    pub fn set(&mut self, kind: u64, resource: R)
        ensures
            final(self).plain_map() == old(self).plain_map().insert(kind, resource),
            final(self).tagged_map() == old(self).tagged_map(),
    {
        self.plain.insert(kind, resource);
    }

    /// The singleton of kind `kind`, if one was stored.
    pub fn get(&self, kind: u64) -> (r: Option<&R>)
        ensures
            match r {
                Some(v) => self.plain_map().dom().contains(kind) && *v == self.plain_map()[kind],
                None => !self.plain_map().dom().contains(kind),
            },
    {
        self.plain.get(&kind)
    }

    /// Mutable access to the singleton of kind `kind`, if one was stored.
    pub fn get_mut(&mut self, kind: u64) -> (r: Option<&mut R>)
        ensures
            old(self).plain_map().dom().contains(kind) ==> r is Some && *r.unwrap() == old(self).plain_map()[kind] && final(self).plain_map() == old(self).plain_map().insert(
                kind,
                *final(r.unwrap()),
            ),
            !old(self).plain_map().dom().contains(kind) ==> r is None && final(self).plain_map()
                == old(self).plain_map(),
            final(self).tagged_map() == old(self).tagged_map(),
    {
        if !self.plain.contains_key(&kind) {
            return None;
        }
        match self.plain.entry(kind) {
            std::collections::hash_map::Entry::Occupied(occ) => Some(occ.into_mut()),
            std::collections::hash_map::Entry::Vacant(_vac) => {
                proof {
                    assert(false);
                }
                vstd::pervasive::unreached()
            },
        }
    }

    /// Stores the singleton of kind `kind` under tag `tag`, independent of
    /// the untagged slot of `kind` and of every other tag.
    pub fn tagged_set(&mut self, tag: u64, kind: u64, resource: R)
        ensures
            final(self).tagged_map() == old(self).tagged_map().insert(
                res_key(tag, kind),
                resource,
            ),
            final(self).plain_map() == old(self).plain_map(),
    {
        let key = res_key_exec(tag, kind);
        self.tagged.insert(key, resource);
    }

    /// The singleton of kind `kind` under tag `tag`, if one was stored.
    pub fn tagged_get(&self, tag: u64, kind: u64) -> (r: Option<&R>)
        ensures
            match r {
                Some(v) => self.tagged_map().dom().contains(res_key(tag, kind)) && *v
                    == self.tagged_map()[res_key(tag, kind)],
                None => !self.tagged_map().dom().contains(res_key(tag, kind)),
            },
    {
        let key = res_key_exec(tag, kind);
        self.tagged.get(&key)
    }

    /// Mutable access to the singleton of kind `kind` under tag `tag`.
    pub fn tagged_get_mut(&mut self, tag: u64, kind: u64) -> (r: Option<&mut R>)
        ensures
            old(self).tagged_map().dom().contains(res_key(tag, kind)) ==> r is Some && *r.unwrap()
                == old(self).tagged_map()[res_key(tag, kind)] && final(self).tagged_map() == old(self).tagged_map().insert(res_key(tag, kind), *final(r.unwrap())),
            !old(self).tagged_map().dom().contains(res_key(tag, kind)) ==> r is None && final(self).tagged_map() == old(self).tagged_map(),
            final(self).plain_map() == old(self).plain_map(),
    {
        let key = res_key_exec(tag, kind);
        if !self.tagged.contains_key(&key) {
            return None;
        }
        match self.tagged.entry(key) {
            std::collections::hash_map::Entry::Occupied(occ) => Some(occ.into_mut()),
            std::collections::hash_map::Entry::Vacant(_vac) => {
                proof {
                    assert(false);
                }
                vstd::pervasive::unreached()
            },
        }
    }
}

/// Computes the composite storage key of a tagged slot.
fn res_key_exec(tag: u64, kind: u64) -> (k: u128)
    ensures
        k == res_key(tag, kind),
{
    ((tag as u128) << 64u32) | (kind as u128)
}

/// Storing the same kind under two different tags fills two independent
/// slots: writing the second never disturbs the first, and each is read
/// back exactly as written.
pub proof fn lemma_tagged_slots_independent<R>(
    reg: ResourceRegistry<R>,
    tag_a: u64,
    tag_b: u64,
    kind: u64,
    x: R,
    y: R,
)
    requires
        tag_a != tag_b,
    ensures
        ({
            let stored = reg.tagged_map().insert(res_key(tag_a, kind), x).insert(
                res_key(tag_b, kind),
                y,
            );
            stored[res_key(tag_a, kind)] == x && stored[res_key(tag_b, kind)] == y
        }),
{
    lemma_res_key_injective(tag_a, kind, tag_b, kind);
}

} // verus!
