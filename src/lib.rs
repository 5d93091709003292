//! A growable, indexable sequence container backed by a single block of
//! default-initialised slots, with a read-only forward cursor over it.
mod iter;
mod laws;
mod toy_vec;

pub use iter::Iter;
pub use laws::{
    appended, lemma_append_then_remove_last, lemma_appends_in_order, lemma_capacity_covers_push,
    lemma_get_out_of_range, lemma_remove_last_on_empty,
};
pub use toy_vec::{capacity_after_push, deref_opt, grown_capacity, spec_get, spec_pop, ToyVec};
