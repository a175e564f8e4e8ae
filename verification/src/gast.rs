//! Declaration shells shared by both body representations: trait
//! declarations and trait implementations.

use crate::ids::{TraitDeclId, TraitImplId};
use crate::meta::ItemMeta;
use crate::names::Name;
use crate::types::{GenericParams, Predicates, TraitClause, TraitDeclRef};
use vstd::prelude::*;

verus! {

/// A trait declaration shell: what the passes and the export need of it.
#[derive(Debug)]
pub struct TraitDecl {
    pub def_id: TraitDeclId,
    pub item_meta: ItemMeta,
    pub name: Name,
    pub generics: GenericParams,
    pub preds: Predicates,
    /// The clauses declared on the trait itself (its super-traits), which
    /// `ParentClause` witnesses walk.
    pub parent_clauses: Vec<TraitClause>,
}

/// A trait implementation shell.
#[derive(Debug)]
pub struct TraitImpl {
    pub def_id: TraitImplId,
    pub item_meta: ItemMeta,
    pub name: Name,
    /// The trait this block implements, applied to its arguments.
    pub impl_trait: TraitDeclRef,
    pub generics: GenericParams,
    pub preds: Predicates,
}

} // verus!
