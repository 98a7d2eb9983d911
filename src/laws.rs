//! Properties that every well-formed `HashBidiMap` has, stated over the
//! views that the operations' contracts use.

use std::hash::Hash;

use vstd::prelude::*;
use vstd::set_lib::lemma_len_subset;

use crate::engine::{BidiMap, HashBidiMap};
use crate::model::bidi_insert;
use crate::view::{LeftMap, RightMap};

verus! {

/// Every pair is found from both of its keys, no two pairs share a key on
/// either side, and the two directions hold the same number of entries.
pub proof fn lemma_bijection<K1, K2>(m: &HashBidiMap<K1, K2>)
    where
        K1: Eq + Hash + Copy,
        K2: Eq + Hash + Copy,
    requires
        m.wf(),
    ensures
        forall|a: K1| #[trigger]
            m.left_view().contains_key(a) ==> {
                &&& m.right_view().contains_key(m.left_view()[a])
                &&& m.right_view()[m.left_view()[a]] == a
            },
        forall|b: K2| #[trigger]
            m.right_view().contains_key(b) ==> {
                &&& m.left_view().contains_key(m.right_view()[b])
                &&& m.left_view()[m.right_view()[b]] == b
            },
        m.left_view().is_injective(),
        m.right_view().is_injective(),
        m.left_view().len() == m.right_view().len(),
{
    m.lemma_unfold();
    let l = m.left_view();
    let r = m.right_view();
    assert(l.dom().finite());
    l.lemma_injective_values_len();
    assert(l.values() =~= r.dom());
}

/// Inserting a pair whose two keys are both new adds one pair; inserting one
/// that shares a key with a present pair does not increase the size.
pub proof fn lemma_insert_len<K1, K2>(m: &HashBidiMap<K1, K2>, k1: K1, k2: K2)
    where
        K1: Eq + Hash + Copy,
        K2: Eq + Hash + Copy,
    requires
        m.wf(),
    ensures
        !m.left_view().contains_key(k1) && !m.right_view().contains_key(k2) ==> bidi_insert(
            m.left_view(),
            k1,
            k2,
        ).len() == m.left_view().len() + 1,
        m.left_view().contains_key(k1) || m.right_view().contains_key(k2) ==> bidi_insert(
            m.left_view(),
            k1,
            k2,
        ).len() <= m.left_view().len(),
{
    m.lemma_unfold();
    let l = m.left_view();
    let r = m.right_view();
    let kept = l.filter_keys(|x: K1| x != k1 && l[x] != k2);
    assert(l.dom().finite());
    if !l.contains_key(k1) && !r.contains_key(k2) {
        assert(kept =~= l);
    } else {
        let gone = if l.contains_key(k1) {
            k1
        } else {
            r[k2]
        };
        assert(l.contains_key(gone));
        assert(kept.dom().subset_of(l.dom().remove(gone)));
        lemma_len_subset(kept.dom(), l.dom().remove(gone));
        assert(!kept.dom().contains(k1));
    }
}

/// Inserting a pair that is already present changes neither direction.
pub proof fn lemma_reinsert_unchanged<K1, K2>(m: &HashBidiMap<K1, K2>, k1: K1, k2: K2)
    where
        K1: Eq + Hash + Copy,
        K2: Eq + Hash + Copy,
    requires
        m.wf(),
        m.left_view().contains_key(k1),
        m.left_view()[k1] == k2,
    ensures
        bidi_insert(m.left_view(), k1, k2) == m.left_view(),
        bidi_insert(m.right_view(), k2, k1) == m.right_view(),
{
    m.lemma_unfold();
    assert(bidi_insert(m.left_view(), k1, k2) =~= m.left_view());
    assert(bidi_insert(m.right_view(), k2, k1) =~= m.right_view());
}

/// A view of the first direction answers as the map does: indexing is
/// allowed exactly at the present keys, and gives the value found there.
pub proof fn lemma_left_view_agrees<'a, K1, K2>(
    m: &HashBidiMap<K1, K2>,
    v: &LeftMap<'a, K1, K2>,
    k: K1,
)
    where
        K1: Eq + Hash + Copy,
        K2: Eq + Hash + Copy,
    requires
        v@ == m.left_view(),
    ensures
        vstd::std_specs::core::IndexSpec::index_req(v, &k) <==> m.left_view().contains_key(k),
        m.left_view().contains_key(k) ==> v@[k] == m.left_view()[k],
{
}

/// A view of the second direction answers as the map does: indexing is
/// allowed exactly at the present keys, and gives the value found there.
pub proof fn lemma_right_view_agrees<'a, K1, K2>(
    m: &HashBidiMap<K1, K2>,
    v: &RightMap<'a, K1, K2>,
    k: K2,
)
    where
        K1: Eq + Hash + Copy,
        K2: Eq + Hash + Copy,
    requires
        v@ == m.right_view(),
    ensures
        vstd::std_specs::core::IndexSpec::index_req(v, &k) <==> m.right_view().contains_key(k),
        m.right_view().contains_key(k) ==> v@[k] == m.right_view()[k],
{
}

} // verus!
