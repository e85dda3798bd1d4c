//! Hierarchical navigation over collections.
//!
//! A [`CollectionPath`] is the breadcrumb stack from the storage root to the
//! collection currently being browsed: a non-empty ordered sequence of erased
//! collections, root first, current last. Non-emptiness is a construction
//! invariant, not a recoverable condition: a path without a root collection
//! cannot be built. Paths are plain values — cloned, truncated and compared
//! freely — and equality is structural over the sequence of locations, since
//! the location is each collection's identity.

use vstd::prelude::*;

use crate::models::{AnyCollection, ItemModel};

verus! {

/// Non-empty ordered sequence of collections, root first, current last.
pub struct CollectionPath {
    collections: Vec<AnyCollection>,
}

impl View for CollectionPath {
    type V = Seq<ItemModel>;

    closed spec fn view(&self) -> Seq<ItemModel> {
        self.collections@.map_values(|c: AnyCollection| c@)
    }
}

impl CollectionPath {
    /// Every path the library hands out is well-formed: it holds at least
    /// the root collection. Constructors establish it and every operation
    /// preserves it, so a path with an empty sequence never exists.
    pub open spec fn wf(&self) -> bool {
        self@.len() >= 1
    }

    /// Builds a path from a root-first sequence of collections.
    ///
    /// An empty sequence is a programming error, ruled out before the call:
    /// there is no path without a root.
    pub fn new(collections: Vec<AnyCollection>) -> (r: CollectionPath)
        requires
            collections@.len() >= 1,
        ensures
            r@ == collections@.map_values(|c: AnyCollection| c@),
            r.wf(),
    {
        CollectionPath { collections }
    }

    /// Appends a child collection: the consumer navigated one level deeper.
    pub fn push(&mut self, collection: AnyCollection)
        ensures
            final(self)@ == old(self)@.push(collection@),
            final(self).wf(),
    {
        self.collections.push(collection);
        proof {
            assert(final(self)@ =~= old(self)@.push(collection@));
        }
    }

    /// The path one level up: everything but the current collection, or
    /// nothing when the path holds only the root.
    pub fn parent(&self) -> (r: Option<CollectionPath>)
        ensures
            r is Some <==> self@.len() > 1,
            r matches Some(p) ==> p@ == self@.take(self@.len() - 1) && p.wf(),
    {
        let n = self.collections.len();
        if n > 1 {
            let mut rest: Vec<AnyCollection> = Vec::new();
            let mut i: usize = 0;
            while i < n - 1
                invariant
                    1 < n == self.collections@.len(),
                    i <= n - 1,
                    rest@.len() == i,
                    forall|j: int| 0 <= j < i ==> rest@[j] == self.collections@[j],
                decreases n - 1 - i,
            {
                rest.push(self.collections[i].clone_box());
                i += 1;
            }
            let p = CollectionPath { collections: rest };
            proof {
                assert(p@ =~= self@.take(self@.len() - 1));
            }
            Some(p)
        } else {
            None
        }
    }

    /// Root-to-current ordered traversal, for breadcrumb display.
    pub fn iter(&self) -> (r: Vec<AnyCollection>)
        ensures
            r@.map_values(|c: AnyCollection| c@) == self@,
    {
        let mut out: Vec<AnyCollection> = Vec::new();
        let mut i: usize = 0;
        while i < self.collections.len()
            invariant
                i <= self.collections@.len(),
                out@.len() == i,
                forall|j: int| 0 <= j < i ==> out@[j] == self.collections@[j],
            decreases self.collections@.len() - i,
        {
            out.push(self.collections[i].clone_box());
            i += 1;
        }
        proof {
            assert(out@.map_values(|c: AnyCollection| c@) =~= self@);
        }
        out
    }

    /// The collection a listing should target: the last element of the path.
    pub fn last(&self) -> (r: &AnyCollection)
        requires
            self.wf(),
        ensures
            r@ == self@.last(),
    {
        &self.collections[self.collections.len() - 1]
    }

    /// The location sequence that defines path equality.
    pub open spec fn locations(&self) -> Seq<Seq<char>> {
        self@.map_values(|m: ItemModel| m.location)
    }
}

impl PartialEq for CollectionPath {
    /// Structural equality over the sequence of locations.
    fn eq(&self, other: &CollectionPath) -> (r: bool) {
        if self.collections.len() != other.collections.len() {
            proof {
                assert(self.locations().len() != other.locations().len());
            }
            return false;
        }
        let n = self.collections.len();
        let mut i: usize = 0;
        while i < n
            invariant
                n == self.collections@.len() == other.collections@.len(),
                i <= n,
                forall|j: int| 0 <= j < i ==> self@[j].location == other@[j].location,
            decreases n - i,
        {
            let a = self.collections[i].location();
            let b = other.collections[i].location();
            if a != b {
                proof {
                    assert(self.locations()[i as int] != other.locations()[i as int]);
                }
                return false;
            }
            i += 1;
        }
        proof {
            assert(self.locations() =~= other.locations());
        }
        true
    }
}

impl vstd::std_specs::cmp::PartialEqSpecImpl for CollectionPath {
    open spec fn obeys_eq_spec() -> bool {
        true
    }

    /// Two paths are equal exactly when their location sequences are equal
    /// element-wise.
    open spec fn eq_spec(&self, other: &CollectionPath) -> bool {
        self.locations() == other.locations()
    }
}

} // verus!
