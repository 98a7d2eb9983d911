//! Read-only views of one direction of a bidirectional map, each usable as
//! an ordinary single-direction map.

use std::hash::Hash;
use std::ops::Index;

use vstd::prelude::*;

use crate::engine::{BidiMap, HashBidiMap};

verus! {

/// A lookup from keys of type `K` to values of type `V`, described by the
/// `Map` that `view` gives.
pub trait MapLike<K, V>: View<V = Map<K, V>> {
    /// The value at `k`, if any.
    fn get<'m>(&'m self, k: &K) -> (r: Option<&'m V>)
        ensures
            match r {
                Some(v) => self@.contains_key(*k) && self@[*k] == *v,
                None => !self@.contains_key(*k),
            },
    ;
}

/// The map looked up by its first key.
pub struct LeftMap<'parent, K1, K2> where
    K1: 'parent + Eq + Hash + Copy,
    K2: 'parent + Eq + Hash + Copy,
 {
    pub(crate) bidi: &'parent HashBidiMap<K1, K2>,
}

/// The map looked up by its second key.
pub struct RightMap<'parent, K1, K2> where
    K1: 'parent + Eq + Hash + Copy,
    K2: 'parent + Eq + Hash + Copy,
 {
    pub(crate) bidi: &'parent HashBidiMap<K1, K2>,
}

impl<'a, K1, K2> LeftMap<'a, K1, K2> where K1: Eq + Hash + Copy, K2: Eq + Hash + Copy {
    #[verifier::type_invariant]
    pub(crate) closed spec fn inv(&self) -> bool {
        self.bidi.consistent()
    }

    /// A view of `bidi`.
    pub(crate) fn new(bidi: &'a HashBidiMap<K1, K2>) -> (r: Self)
        requires
            bidi.consistent(),
        ensures
            r@ == bidi.left_to_right@,
    {
        LeftMap { bidi }
    }
}

impl<'a, K1, K2> RightMap<'a, K1, K2> where K1: Eq + Hash + Copy, K2: Eq + Hash + Copy {
    #[verifier::type_invariant]
    pub(crate) closed spec fn inv(&self) -> bool {
        self.bidi.consistent()
    }

    /// A view of `bidi`.
    pub(crate) fn new(bidi: &'a HashBidiMap<K1, K2>) -> (r: Self)
        requires
            bidi.consistent(),
        ensures
            r@ == bidi.right_to_left@,
    {
        RightMap { bidi }
    }
}

impl<'a, K1, K2> View for LeftMap<'a, K1, K2> where K1: Eq + Hash + Copy, K2: Eq + Hash + Copy {
    type V = Map<K1, K2>;

    closed spec fn view(&self) -> Map<K1, K2> {
        self.bidi.left_to_right@
    }
}

impl<'a, K1, K2> View for RightMap<'a, K1, K2> where K1: Eq + Hash + Copy, K2: Eq + Hash + Copy {
    type V = Map<K2, K1>;

    closed spec fn view(&self) -> Map<K2, K1> {
        self.bidi.right_to_left@
    }
}

impl<'a, K1, K2> MapLike<K1, K2> for LeftMap<'a, K1, K2> where
    K1: Eq + Hash + Copy,
    K2: Eq + Hash + Copy,
 {
    fn get<'m>(&'m self, k: &K1) -> (r: Option<&'m K2>) {
        proof {
            use_type_invariant(self);
            self.bidi.lemma_unfold();
        }
        self.bidi.get2(k)
    }
}

impl<'a, K1, K2> MapLike<K2, K1> for RightMap<'a, K1, K2> where
    K1: Eq + Hash + Copy,
    K2: Eq + Hash + Copy,
 {
    fn get<'m>(&'m self, k: &K2) -> (r: Option<&'m K1>) {
        proof {
            use_type_invariant(self);
            self.bidi.lemma_unfold();
        }
        self.bidi.get1(k)
    }
}

impl<'a, K1, K2> Index<K1> for LeftMap<'a, K1, K2> where
    K1: Eq + Hash + Copy,
    K2: Eq + Hash + Copy,
 {
    type Output = K2;

    /// The value at `index`, which must be present.
    fn index(&self, index: K1) -> (r: &K2)
        ensures
            *r == self@[index],
    {
        self.get(&index).expect("key not present")
    }
}

impl<'a, K1, K2> vstd::std_specs::core::IndexSpecImpl<K1> for LeftMap<'a, K1, K2> where
    K1: Eq + Hash + Copy,
    K2: Eq + Hash + Copy,
 {
    open spec fn index_req(&self, index: &K1) -> bool {
        self@.contains_key(*index)
    }
}

impl<'a, K1, K2> Index<K2> for RightMap<'a, K1, K2> where
    K1: Eq + Hash + Copy,
    K2: Eq + Hash + Copy,
 {
    type Output = K1;

    /// The value at `index`, which must be present.
    fn index(&self, index: K2) -> (r: &K1)
        ensures
            *r == self@[index],
    {
        self.get(&index).expect("key not present")
    }
}

impl<'a, K1, K2> vstd::std_specs::core::IndexSpecImpl<K2> for RightMap<'a, K1, K2> where
    K1: Eq + Hash + Copy,
    K2: Eq + Hash + Copy,
 {
    open spec fn index_req(&self, index: &K2) -> bool {
        self@.contains_key(*index)
    }
}

} // verus!
