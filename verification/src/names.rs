//! Item names: paths of identifiers with disambiguators.

use crate::ids::Disambiguator;
use crate::types::{GenericParams, Predicates, TraitDeclRef, Ty};
use vstd::prelude::*;

verus! {

/// One element of an item path: a plain identifier with its disambiguator,
/// or an `impl` block element.
#[derive(Debug)]
pub enum PathElem {
    Ident(String, Disambiguator),
    Impl(ImplElem),
}

/// A path element standing for an `impl` block.
#[derive(Debug)]
pub struct ImplElem {
    pub disambiguator: Disambiguator,
    pub generics: GenericParams,
    pub preds: Predicates,
    pub kind: ImplElemKind,
}

/// The two kinds of `impl` blocks: inherent impl blocks, linked to a type,
/// and trait impl blocks.
#[derive(Debug)]
pub enum ImplElemKind {
    Ty(Ty),
    /// The first type argument of the trait reference gives the type the
    /// trait is implemented for.
    Trait(TraitDeclRef),
}

/// An item name: a list of path elements. The first element is always the
/// crate name. Disambiguators tell apart items with the same name coming
/// from different `impl` blocks; everywhere else they are zero.
#[derive(Debug)]
pub struct Name {
    pub name: Vec<PathElem>,
}

} // verus!
