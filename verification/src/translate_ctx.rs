//! The shared translation context.
//!
//! The context carries the declaration tables produced by extraction, the
//! file table used by spans, the externally computed declaration ordering,
//! and the shared error counter that the passes advance when they degrade
//! a malformed occurrence to a no-op.

use crate::gast::{TraitDecl, TraitImpl};
use crate::ids::FileId;
use crate::meta::FileName;
use crate::reorder_decls::DeclarationGroup;
use crate::types::TypeDecl;
use vstd::prelude::*;

verus! {

/// The translation context. The type declaration with identifier `i` is
/// expected at position `i` of `type_decls`; an identifier out of range is
/// treated as a declaration missing because of an earlier error.
pub struct TransCtx {
    /// All the type declarations, position-indexed by their identifier.
    pub type_decls: Vec<TypeDecl>,
    /// All the trait declarations.
    pub trait_decls: Vec<TraitDecl>,
    /// All the trait implementations.
    pub trait_impls: Vec<TraitImpl>,
    /// The map from file identifiers to file names, as an unordered list
    /// of pairs with pairwise distinct identifiers.
    pub id_to_file: Vec<(FileId, FileName)>,
    /// The ordered declaration groups, once the reordering collaborator
    /// has computed them.
    pub ordered_decls: Option<Vec<DeclarationGroup>>,
    /// How many local errors translation has registered so far. The
    /// counter saturates at its maximum instead of wrapping.
    pub error_count: u64,
}

} // verus!
