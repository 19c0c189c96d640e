//! The simplest arena: values of one type stored in insertion order, named by
//! typed, copyable positions instead of references.

mod idx_arena;

pub use idx_arena::{
    after_inserts, lemma_inserted_stays, lemma_inserts_keep_earlier, lemma_len_after_inserts,
    lemma_mutation_visible, lookup, Arena, Idx,
};
