//! The bidirectional map itself: two hash tables kept as mirror images of
//! each other.

use std::collections::HashMap;
use std::hash::Hash;

use vstd::prelude::*;
use vstd::std_specs::hash::obeys_key_model;

use crate::model::{bidi_extend, bidi_insert, swapped};
use crate::view::{LeftMap, RightMap};

verus! {

/// A one-to-one association between keys of type `K1` and keys of type `K2`.
///
/// Its state is described by two maps: `left_view` from `K1` to `K2` and
/// `right_view` from `K2` to `K1`. While `wf` holds, each is the inverse of
/// the other.
pub trait BidiMap<'a, K1, K2> where K1: Eq + Hash + Copy, K2: Eq + Hash + Copy {
    /// The association, looked up by the first key.
    spec fn left_view(&self) -> Map<K1, K2>;

    /// The association, looked up by the second key.
    spec fn right_view(&self) -> Map<K2, K1>;

    /// The internal consistency of the map.
    spec fn wf(&self) -> bool;

    /// A view of the map looked up by its first key.
    fn as_map(&'a self) -> (r: LeftMap<'a, K1, K2>)
        requires
            self.wf(),
        ensures
            r@ == self.left_view(),
    ;

    /// A view of the map looked up by its second key.
    fn as_inv_map(&'a self) -> (r: RightMap<'a, K1, K2>)
        requires
            self.wf(),
        ensures
            r@ == self.right_view(),
    ;

    /// Associates `k1` with `k2`. Any pair that held `k1` or `k2` before is
    /// removed first, in both directions.
    fn insert(&mut self, k1: K1, k2: K2)
        requires
            old(self).wf(),
        ensures
            final(self).wf(),
            final(self).left_view() == bidi_insert(old(self).left_view(), k1, k2),
            final(self).right_view() == bidi_insert(old(self).right_view(), k2, k1),
    ;

    /// The first key associated with `k2`, if any.
    fn get1(&self, k2: &K2) -> (r: Option<&K1>)
        requires
            self.wf(),
        ensures
            match r {
                Some(v) => self.right_view().contains_key(*k2) && self.right_view()[*k2] == *v,
                None => !self.right_view().contains_key(*k2),
            },
    ;

    /// The second key associated with `k1`, if any.
    fn get2(&self, k1: &K1) -> (r: Option<&K2>)
        requires
            self.wf(),
        ensures
            match r {
                Some(v) => self.left_view().contains_key(*k1) && self.left_view()[*k1] == *v,
                None => !self.left_view().contains_key(*k1),
            },
    ;

    /// The number of pairs.
    fn len(&self) -> (r: usize)
        requires
            self.wf(),
        ensures
            r == self.left_view().len(),
    ;
}

/// A bidirectional map over two hash tables, one per direction.
///
/// Each pair is stored once in each table. The keys are `Copy`, so both
/// tables hold the very same two values, never diverging clones.
pub struct HashBidiMap<K1, K2> {
    pub(crate) left_to_right: HashMap<K1, K2>,
    pub(crate) right_to_left: HashMap<K2, K1>,
}

impl<K1, K2> HashBidiMap<K1, K2> {
    /// Both tables obey the hash-table model, and each is the inverse of the
    /// other.
    pub(crate) open spec fn consistent(&self) -> bool {
        &&& obeys_key_model::<K1>()
        &&& obeys_key_model::<K2>()
        &&& forall|a: K1| #[trigger]
            self.left_to_right@.contains_key(a) ==> {
                &&& self.right_to_left@.contains_key(self.left_to_right@[a])
                &&& self.right_to_left@[self.left_to_right@[a]] == a
            }
        &&& forall|b: K2| #[trigger]
            self.right_to_left@.contains_key(b) ==> {
                &&& self.left_to_right@.contains_key(self.right_to_left@[b])
                &&& self.left_to_right@[self.right_to_left@[b]] == b
            }
    }
}

impl<'a, K1, K2> BidiMap<'a, K1, K2> for HashBidiMap<K1, K2> where
    K1: Eq + Hash + Copy,
    K2: Eq + Hash + Copy,
 {
    closed spec fn left_view(&self) -> Map<K1, K2> {
        self.left_to_right@
    }

    closed spec fn right_view(&self) -> Map<K2, K1> {
        self.right_to_left@
    }

    closed spec fn wf(&self) -> bool {
        self.consistent()
    }

    fn as_map(&'a self) -> (r: LeftMap<'a, K1, K2>) {
        LeftMap::new(self)
    }

    fn as_inv_map(&'a self) -> (r: RightMap<'a, K1, K2>) {
        RightMap::new(self)
    }

    fn insert(&mut self, k1: K1, k2: K2) {
        let ghost l0 = self.left_to_right@;
        let ghost r0 = self.right_to_left@;
        if let Some(kk1) = self.right_to_left.get(&k2) {
            let kk1: K1 = *kk1;
            self.left_to_right.remove(&kk1);
        }
        if let Some(kk2) = self.left_to_right.get(&k1) {
            let kk2: K2 = *kk2;
            self.right_to_left.remove(&kk2);
        }
        self.left_to_right.insert(k1, k2);
        self.right_to_left.insert(k2, k1);
        proof {
            assert(self.left_to_right@ =~= bidi_insert(l0, k1, k2));
            assert(self.right_to_left@ =~= bidi_insert(r0, k2, k1));
        }
    }

    fn get1(&self, k2: &K2) -> (r: Option<&K1>) {
        self.right_to_left.get(k2)
    }

    fn get2(&self, k1: &K1) -> (r: Option<&K2>) {
        self.left_to_right.get(k1)
    }

    fn len(&self) -> (r: usize) {
        self.left_to_right.len()
    }
}

impl<A, B> HashBidiMap<A, B> where A: Eq + Hash + Copy, B: Eq + Hash + Copy {
    /// What the three spec functions of `BidiMap` stand for.
    pub(crate) proof fn lemma_unfold(&self)
        ensures
            self.wf() == self.consistent(),
            self.left_view() == self.left_to_right@,
            self.right_view() == self.right_to_left@,
    {
    }

    /// An empty map. Both key types must behave as hash-table keys: hashing
    /// is deterministic and `==` is equality of values.
    pub fn new() -> (r: Self)
        requires
            obeys_key_model::<A>(),
            obeys_key_model::<B>(),
        ensures
            r.wf(),
            r.left_view() == Map::<A, B>::empty(),
            r.right_view() == Map::<B, A>::empty(),
    {
        HashBidiMap { left_to_right: HashMap::new(), right_to_left: HashMap::new() }
    }

    /// Inserts each pair of `pairs`, in order; a later pair overrides an
    /// earlier one exactly as a later `insert` would.
    pub fn extend(&mut self, pairs: Vec<(A, B)>)
        requires
            old(self).wf(),
        ensures
            final(self).wf(),
            final(self).left_view() == bidi_extend(old(self).left_view(), pairs@),
            final(self).right_view() == bidi_extend(old(self).right_view(), swapped(pairs@)),
    {
        let mut i: usize = 0;
        while i < pairs.len()
            invariant
                i <= pairs@.len(),
                self.wf(),
                self.left_view() == bidi_extend(old(self).left_view(), pairs@.take(i as int)),
                self.right_view() == bidi_extend(
                    old(self).right_view(),
                    swapped(pairs@.take(i as int)),
                ),
            decreases pairs@.len() - i,
        {
            let (k1, k2) = pairs[i];
            proof {
                let s = pairs@.take(i as int + 1);
                assert(s.drop_last() =~= pairs@.take(i as int));
                assert(swapped(s).drop_last() =~= swapped(pairs@.take(i as int)));
            }
            self.insert(k1, k2);
            i = i + 1;
        }
        proof {
            assert(pairs@.take(i as int) =~= pairs@);
        }
    }
}

} // verus!
