//! A bidirectional map: a one-to-one correspondence between two key
//! domains, with lookup in either direction.

mod engine;
mod laws;
mod model;
mod view;

pub use engine::{BidiMap, HashBidiMap};
pub use laws::{
    lemma_bijection, lemma_insert_len, lemma_left_view_agrees, lemma_reinsert_unchanged,
    lemma_right_view_agrees,
};
pub use model::{bidi_extend, bidi_insert, swapped};
pub use view::{LeftMap, MapLike, RightMap};
