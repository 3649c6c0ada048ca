//! One-to-(none/one/many) character mapping.
//!
//! Each character of an input sequence is independently resolved to an
//! action — pass it through, delete it, or substitute a string or a single
//! character for it — and the transformed output is produced lazily, one
//! character per request.
//!
//! The lookup structure that maps a character to its action is supplied by
//! the caller through the [`ActionMap`] trait; maps from `std`, `hashbrown`
//! and `phf` implement it here.

mod actionmap;
mod charmapper;

pub use crate::actionmap::{ActionMap, ActionModel, CharMapAction, action_output};
pub use crate::charmapper::{
    CharMapper, MapCharsIter, MappedChars, lemma_default_fallback, lemma_delete_empty_sub_equiv,
    lemma_output_cons, lemma_pass_only_identity, lemma_pointwise_agreement,
    lemma_substitution_ordering, pending_output,
};
