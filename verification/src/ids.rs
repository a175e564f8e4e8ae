//! Strongly-typed integer identifiers.
//!
//! Every entity kind gets its own index type so that indices of different
//! kinds cannot be mixed up. Identifiers are dense: the entity with
//! identifier `i` lives at position `i` of the vector that owns it.

use vstd::prelude::*;

verus! {

/// Identifier of a generic type variable.
#[derive(Debug, Clone, Copy, PartialEq, Eq, Structural, Hash)]
pub struct TypeVarId {
    pub index: usize,
}

/// Identifier of a type declaration.
#[derive(Debug, Clone, Copy, PartialEq, Eq, Structural, Hash)]
pub struct TypeDeclId {
    pub index: usize,
}

/// Identifier of an enum variant, local to its enum declaration.
#[derive(Debug, Clone, Copy, PartialEq, Eq, Structural, Hash)]
pub struct VariantId {
    pub index: usize,
}

/// Identifier of a field, local to its struct or variant.
#[derive(Debug, Clone, Copy, PartialEq, Eq, Structural, Hash)]
pub struct FieldId {
    pub index: usize,
}

/// Identifier of a region variable.
#[derive(Debug, Clone, Copy, PartialEq, Eq, Structural, Hash)]
pub struct RegionId {
    pub index: usize,
}

/// Identifier of a const-generic variable.
#[derive(Debug, Clone, Copy, PartialEq, Eq, Structural, Hash)]
pub struct ConstGenericVarId {
    pub index: usize,
}

/// Identifier of a global declaration.
#[derive(Debug, Clone, Copy, PartialEq, Eq, Structural, Hash)]
pub struct GlobalDeclId {
    pub index: usize,
}

/// Identifier of a trait clause, position-stable within its clause list.
#[derive(Debug, Clone, Copy, PartialEq, Eq, Structural, Hash)]
pub struct TraitClauseId {
    pub index: usize,
}

/// Identifier of a trait declaration.
#[derive(Debug, Clone, Copy, PartialEq, Eq, Structural, Hash)]
pub struct TraitDeclId {
    pub index: usize,
}

/// Identifier of a trait implementation.
#[derive(Debug, Clone, Copy, PartialEq, Eq, Structural, Hash)]
pub struct TraitImplId {
    pub index: usize,
}

/// Identifier of a function declaration.
#[derive(Debug, Clone, Copy, PartialEq, Eq, Structural, Hash)]
pub struct FunDeclId {
    pub index: usize,
}

/// Identifier of a source file, used by spans instead of the file name.
#[derive(Debug, Clone, Copy, PartialEq, Eq, Structural, Hash)]
pub struct FileId {
    pub index: usize,
}

/// Disambiguator attached to a path element to tell apart items that
/// would otherwise carry the same name (typically `impl` blocks).
#[derive(Debug, Clone, Copy, PartialEq, Eq, Structural, Hash)]
pub struct Disambiguator {
    pub index: usize,
}

/// Identifier of a local variable inside a body.
#[derive(Debug, Clone, Copy, PartialEq, Eq, Structural, Hash)]
pub struct VarId {
    pub index: usize,
}

/// Identifier of a basic block inside an unstructured body.
#[derive(Debug, Clone, Copy, PartialEq, Eq, Structural, Hash)]
pub struct BlockId {
    pub index: usize,
}

} // verus!
