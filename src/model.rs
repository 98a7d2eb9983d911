//! The mathematical model of a bidirectional map, as one `Map` per
//! direction, and how insertion changes it.

use vstd::prelude::*;

verus! {

/// The map `m` after associating `a` with `b`: every entry that shares
/// neither its key with `a` nor its value with `b` stays, and `a => b` is
/// added.
pub open spec fn bidi_insert<A, B>(m: Map<A, B>, a: A, b: B) -> Map<A, B> {
    m.filter_keys(|x: A| x != a && m[x] != b).insert(a, b)
}

/// The map `m` after inserting each pair of `s`, in order.
pub open spec fn bidi_extend<A, B>(m: Map<A, B>, s: Seq<(A, B)>) -> Map<A, B>
    decreases s.len(),
{
    if s.len() == 0 {
        m
    } else {
        bidi_insert(bidi_extend(m, s.drop_last()), s.last().0, s.last().1)
    }
}

/// Each pair of `s` with its two components exchanged.
pub open spec fn swapped<A, B>(s: Seq<(A, B)>) -> Seq<(B, A)> {
    s.map_values(|p: (A, B)| (p.1, p.0))
}

} // verus!
