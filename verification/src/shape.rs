//! Structural queries: an `EntityShape` is an order-irrelevant, deduplicated
//! collection of component-kind tokens. It describes both what an entity has
//! and what a query requires.

use vstd::prelude::*;

verus! {

/// A deduplicated collection of component-kind tokens.
///
/// Used as a property of an entity (the kinds it holds) and as a query
/// (the kinds it requires). An entity matches a query iff every kind of the
/// query is present on the entity; extra kinds on the entity are ignored.
#[derive(Clone)]
pub struct EntityShape {
    kinds: Vec<u64>,
}

impl EntityShape {
    /// The shape as a set of kind tokens. Order of insertion is irrelevant
    /// to matching, so the set is the shape's meaning.
    pub closed spec fn kind_set(self) -> Set<u64> {
        self.kinds@.to_set()
    }

    /// The kinds in insertion order, with no duplicates.
    pub closed spec fn kind_seq(self) -> Seq<u64> {
        self.kinds@
    }

    /// The internal list never holds a kind twice.
    pub closed spec fn wf(self) -> bool {
        forall|i: int, j: int|
            0 <= i < j < self.kinds@.len() ==> self.kinds@[i] != self.kinds@[j]
    }

    /// An empty shape: matches every entity when used as a query.
    pub fn new() -> (s: Self)
        ensures
            s.wf(),
            s.kind_seq() == Seq::<u64>::empty(),
            s.kind_set() == Set::<u64>::empty(),
    {
        let s = EntityShape { kinds: Vec::new() };
        proof {
            assert(s.kinds@.to_set() =~= Set::<u64>::empty());
        }
        s
    }

    /// Adds a kind token; a kind already present is not added again.
    pub fn add(&mut self, kind: u64)
        requires
            old(self).wf(),
        ensures
            final(self).wf(),
            final(self).kind_set() == old(self).kind_set().insert(kind),
            old(self).kind_set().contains(kind) ==> final(self).kind_seq() == old(self).kind_seq(),
            !old(self).kind_set().contains(kind) ==> final(self).kind_seq() == old(self).kind_seq().push(kind),
    {
        let mut i: usize = 0;
        while i < self.kinds.len()
            invariant
                0 <= i <= self.kinds@.len(),
                forall|k: int| 0 <= k < i ==> self.kinds@[k] != kind,
                *self == *old(self),
                self.wf(),
            decreases self.kinds@.len() - i,
        {
            if self.kinds[i] == kind {
                proof {
                    assert(self.kinds@.to_set().contains(kind)) by {
                        assert(self.kinds@[i as int] == kind);
                    }
                    assert(self.kind_set() =~= old(self).kind_set().insert(kind));
                }
                return ;
            }
            i += 1;
        }
        proof {
            assert(!old(self).kinds@.to_set().contains(kind));
        }
        self.kinds.push(kind);
        proof {
            let s0 = old(self).kinds@;
            let s1 = self.kinds@;
            assert(s1 == s0.push(kind));
            assert(s1.to_set() =~= s0.to_set().insert(kind)) by {
                assert forall|a: u64| s1.contains(a) implies (s0.contains(a) || a == kind) by {
                    let w = choose|w: int| 0 <= w < s1.len() && s1[w] == a;
                    if w < s0.len() {
                        assert(s0[w] == a);
                    }
                }
                assert forall|a: u64| s0.contains(a) implies s1.contains(a) by {
                    let w = choose|w: int| 0 <= w < s0.len() && s0[w] == a;
                    assert(s1[w] == a);
                }
                assert(s1[s1.len() - 1] == kind);
            }
        }
    }

    /// The number of distinct kinds in the shape.
    pub fn len(&self) -> (n: usize)
        ensures
            n == self.kind_seq().len(),
    {
        self.kinds.len()
    }

    /// The kind at a position, in insertion order.
    pub fn kind_at(&self, i: usize) -> (k: u64)
        requires
            i < self.kind_seq().len(),
        ensures
            k == self.kind_seq()[i as int],
            self.kind_set().contains(k),
    {
        proof {
            assert(self.kinds@.to_set().contains(self.kinds@[i as int]));
        }
        self.kinds[i]
    }

    /// The shape's set is exactly the set of elements of its list.
    pub proof fn lemma_kind_set_members(self)
        ensures
            self.kind_set() == self.kind_seq().to_set(),
    {
    }

    /// Whether the shape holds a kind.
    pub fn contains(&self, kind: u64) -> (r: bool)
        ensures
            r == self.kind_set().contains(kind),
    {
        let mut i: usize = 0;
        while i < self.kinds.len()
            invariant
                0 <= i <= self.kinds@.len(),
                forall|k: int| 0 <= k < i ==> self.kinds@[k] != kind,
            decreases self.kinds@.len() - i,
        {
            if self.kinds[i] == kind {
                proof {
                    assert(self.kinds@.to_set().contains(kind)) by {
                        assert(self.kinds@[i as int] == kind);
                    }
                }
                return true;
            }
            i += 1;
        }
        proof {
            if self.kinds@.to_set().contains(kind) {
                let w = choose|w: int| 0 <= w < self.kinds@.len() && self.kinds@[w] == kind;
                assert(false);
            }
        }
        false
    }
}

/// Fluent accumulation of an `EntityShape`.
pub struct EntityShapeBuilder {
    shape: EntityShape,
}

impl EntityShapeBuilder {
    /// The shape accumulated so far.
    pub closed spec fn kind_set(self) -> Set<u64> {
        self.shape.kind_set()
    }

    /// Well-formedness of the accumulated shape.
    pub closed spec fn wf(self) -> bool {
        self.shape.wf()
    }

    /// Starts from the empty shape.
    pub fn new() -> (b: Self)
        ensures
            b.wf(),
            b.kind_set() == Set::<u64>::empty(),
    {
        EntityShapeBuilder { shape: EntityShape::new() }
    }

    /// Adds a required kind and returns the builder for chaining.
    pub fn with(self, kind: u64) -> (b: Self)
        requires
            self.wf(),
        ensures
            b.wf(),
            b.kind_set() == self.kind_set().insert(kind),
    {
        let mut b = self;
        b.shape.add(kind);
        b
    }

    /// Finishes the accumulation.
    pub fn build(self) -> (s: EntityShape)
        requires
            self.wf(),
        ensures
            s.wf(),
            s.kind_set() == self.kind_set(),
    {
        self.shape
    }
}

} // verus!
