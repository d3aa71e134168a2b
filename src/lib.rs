//! Equality indexes over columns of scalar values: each distinct value of a
//! column maps to the ascending list of row ordinals where it occurs.
//!
//! An index is built once, in a single left-to-right scan, and is immutable
//! afterwards. Keys are hashed by `hashbrown`; the postings lists are packed
//! back to back into one buffer once the scan is done.

mod element;
mod int_index;
mod keys;
mod packed;
mod postings;
mod slots;
mod text_index;

pub use element::{check_column, key_type_of, ElementType, IndexError, KeyType};
pub use int_index::{
    lemma_int_build_deterministic, lemma_int_complete, lemma_int_ordered, ArrowInt16Index,
    ArrowInt32Index, ArrowInt64Index, ArrowInt8Index, ArrowUInt16Index, ArrowUInt32Index,
    ArrowUInt64Index, ArrowUInt8Index, IntIndex,
};
pub use keys::IntKey;
pub use postings::{
    lemma_postings_complete, lemma_postings_exact, lemma_postings_increasing, lemma_postings_push,
    ordinals_fit, postings,
};
pub use text_index::{
    lemma_text_build_deterministic, lemma_text_complete, lemma_text_ordered, text_column,
    ArrowStringIndex,
};
