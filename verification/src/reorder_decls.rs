//! Declaration groups, as computed by the reordering collaborator.
//!
//! The reordering of declarations into groups of mutually recursive items
//! is computed outside this library; the groups are carried verbatim into
//! the exported snapshot.

use crate::ids::{FunDeclId, GlobalDeclId, TraitDeclId, TraitImplId, TypeDeclId};
use vstd::prelude::*;

verus! {

/// A group of declarations of one kind: either a single non-recursive
/// declaration, or a set of mutually recursive ones.
#[derive(Debug, Clone)]
pub enum GDeclarationGroup<T> {
    NonRec(T),
    Rec(Vec<T>),
}

/// A group of mutually recursive declarations, tagged by their kind.
#[derive(Debug, Clone)]
pub enum DeclarationGroup {
    Type(GDeclarationGroup<TypeDeclId>),
    Fun(GDeclarationGroup<FunDeclId>),
    Global(GDeclarationGroup<GlobalDeclId>),
    TraitDecl(GDeclarationGroup<TraitDeclId>),
    TraitImpl(GDeclarationGroup<TraitImplId>),
}

} // verus!
