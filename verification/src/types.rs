//! The generic type and trait data model.
//!
//! Types, generic parameters and arguments, predicates, and trait-instance
//! resolution witnesses. This component exposes construction and traversal
//! only: it is the vocabulary shared by every pass.

use crate::ids::{
    ConstGenericVarId, FunDeclId, GlobalDeclId, RegionId, TraitClauseId, TraitDeclId, TraitImplId,
    TypeDeclId, TypeVarId,
};
use crate::meta::{ItemMeta, Meta};
use crate::names::Name;
use crate::values::Literal;
use vstd::prelude::*;

verus! {

pub type FieldName = String;

/// The name of an item (associated type, method, ...) inside a trait.
#[derive(Debug, Clone)]
pub struct TraitItemName(pub String);

/// Type variable. Distinct from the value variables of bodies.
#[derive(Debug, Clone)]
pub struct TypeVar {
    /// Unique index identifying the variable
    pub index: TypeVarId,
    /// Variable name
    pub name: String,
}

/// Region variable.
#[derive(Debug, Clone)]
pub struct RegionVar {
    /// Unique index identifying the variable
    pub index: RegionId,
    /// Region name
    pub name: Option<String>,
}

/// Const generic variable.
#[derive(Debug, Clone)]
pub struct ConstGenericVar {
    /// Unique index identifying the variable
    pub index: ConstGenericVarId,
    /// Const generic name
    pub name: String,
    /// Type of the const generic
    pub ty: LiteralTy,
}

/// A De Bruijn index: the number of binders between a bound-variable
/// occurrence and the binder group that introduces the variable.
#[derive(Debug, Clone, Copy, PartialEq, Eq, Structural, Hash)]
pub struct DeBruijnId {
    pub index: usize,
}

/// The region (lifetime) annotation carried by reference types.
#[derive(Debug, Clone, Copy, PartialEq, Eq, Structural, Hash)]
pub enum Region {
    /// Static region
    Static,
    /// Bound region variable: De Bruijn indices identify *groups* of bound
    /// variables, and the region identifier picks the variable inside the
    /// group.
    BVar(DeBruijnId, RegionId),
    /// Erased region. Bodies carry only erased regions; signatures never do.
    Erased,
    /// For error reporting.
    Unknown,
}

/// Identifier of a trait instance: a path through the trait clauses in
/// scope that describes *how* a trait obligation is discharged, so that
/// consumers can replay the derivation.
#[derive(Debug)]
pub enum TraitInstanceId {
    /// A specific implementation.
    TraitImpl(TraitImplId),
    /// A built-in or auto trait implementation.
    BuiltinOrAuto(TraitDeclId),
    /// One of the local clauses.
    Clause(TraitClauseId),
    /// A parent clause of another instance. The trait declaration
    /// identifier names the trait implemented by that instance; it is
    /// redundant but convenient.
    ParentClause(Box<TraitInstanceId>, TraitDeclId, TraitClauseId),
    /// A clause bound in a trait item (typically a clause on an associated
    /// type). The trait declaration identifier names the trait the item
    /// belongs to; it is redundant but convenient.
    ItemClause(Box<TraitInstanceId>, TraitDeclId, TraitItemName, TraitClauseId),
    /// A function pointer used as an implementer of `Fn`-like traits.
    FnPointer(Box<Ty>),
    /// A closure used as an implementer of `Fn`-like traits. Closures are
    /// kept distinct from function pointers because they carry a state.
    Closure(FunDeclId, GenericArgs),
    /// Self, in trait declarations and implementations. Kept last on
    /// purpose: ordering the clauses starts with the other clauses, so
    /// that local clauses take priority when obligations are solved.
    SelfId,
    /// A clause that has not been solved yet. Purely internal: after the
    /// obligations are solved, any remaining unsolved clause is converted
    /// to [TraitInstanceId::Unknown] before export.
    Unsolved(TraitDeclId, GenericArgs),
    /// For error reporting. Appears only when translation continues past
    /// errors.
    Unknown(String),
}

/// A reference to a trait instance.
#[derive(Debug)]
pub struct TraitRef {
    pub trait_id: TraitInstanceId,
    pub generics: GenericArgs,
    /// Not necessary, but useful
    pub trait_decl_ref: TraitDeclRef,
}

/// Reference to a trait declaration, with the arguments it is applied to.
/// The first type argument gives the type the trait is implemented for.
#[derive(Debug)]
pub struct TraitDeclRef {
    pub trait_id: TraitDeclId,
    pub generics: GenericArgs,
}

/// An outlives constraint: the first component outlives the second.
#[derive(Debug)]
pub struct OutlivesPred<T, U>(pub T, pub U);

pub type RegionOutlives = OutlivesPred<Region, Region>;

pub type TypeOutlives = OutlivesPred<Ty, Region>;

/// A constraint over a trait associated type, such as `T: Foo<S = String>`.
#[derive(Debug)]
pub struct TraitTypeConstraint {
    pub trait_ref: TraitRef,
    pub ty_name: TraitItemName,
    pub ty: Ty,
}

/// The predicates which apply to a definition.
#[derive(Debug)]
pub struct Predicates {
    /// The first region in the pair outlives the second region
    pub regions_outlive: Vec<RegionOutlives>,
    /// The type outlives the region
    pub types_outlive: Vec<TypeOutlives>,
    /// Constraints over trait associated types
    pub trait_type_constraints: Vec<TraitTypeConstraint>,
}

/// Use-site generic arguments: what is supplied for the parameters of a
/// referenced declaration. In every well-formed instance, each list's
/// length matches the corresponding parameter list, pointwise.
#[derive(Debug)]
pub struct GenericArgs {
    pub regions: Vec<Region>,
    pub types: Vec<Ty>,
    pub const_generics: Vec<ConstGeneric>,
    pub trait_refs: Vec<TraitRef>,
}

/// Declaration-site generic parameters, together with the trait clauses
/// that need to be filled with instances at use sites. The predicates that
/// are not trait clauses live in [Predicates]: they constrain instances but
/// are not filled with witnesses.
#[derive(Debug)]
pub struct GenericParams {
    pub regions: Vec<RegionVar>,
    pub types: Vec<TypeVar>,
    pub const_generics: Vec<ConstGenericVar>,
    /// A plain vector rather than an identifier-indexed one: clause lists
    /// may be filtered, so the clause identifiers need not be contiguous.
    pub trait_clauses: Vec<TraitClause>,
}

/// One trait obligation entry, identified by a position-stable id which
/// `Clause(id)` witnesses refer to.
#[derive(Debug)]
pub struct TraitClause {
    /// Used to refer to this clause when solving trait constraints.
    pub clause_id: TraitClauseId,
    /// Diagnostic-position metadata; not part of the clause's identity.
    pub meta: Option<Meta>,
    pub trait_id: TraitDeclId,
    /// Remark: the trait refs list in [TraitClause::generics] should be empty.
    pub generics: GenericArgs,
}

/// A type declaration: a struct, an enum, an opaque type, or an error
/// placeholder left by an extraction failure when translation continues
/// past errors.
#[derive(Debug)]
pub struct TypeDecl {
    pub def_id: TypeDeclId,
    /// Meta information associated with the type.
    pub item_meta: ItemMeta,
    /// `true` if the type declaration is local to the translated crate,
    /// `false` if it comes from an external crate.
    pub is_local: bool,
    pub name: Name,
    pub generics: GenericParams,
    pub preds: Predicates,
    /// The type kind: enum, struct, or opaque.
    pub kind: TypeDeclKind,
}

/// The kind of a type declaration.
#[derive(Debug)]
pub enum TypeDeclKind {
    Struct(Vec<Field>),
    Enum(Vec<Variant>),
    /// An opaque type: a local type marked as opaque, or an external type.
    Opaque,
    /// Used if an error happened during extraction and translation
    /// continues past errors.
    Error(String),
}

/// An enum variant.
#[derive(Debug)]
pub struct Variant {
    pub meta: Meta,
    pub name: String,
    pub fields: Vec<Field>,
    /// The discriminant used at runtime, as a width-exact unsigned bit
    /// pattern. It is pass-internal bookkeeping used to match integer
    /// switches with variants, and it is never serialized.
    pub discriminant: u128,
}

/// A field of a struct or of an enum variant.
#[derive(Debug)]
pub struct Field {
    pub meta: Meta,
    pub name: Option<String>,
    pub ty: Ty,
}

/// The integer types.
#[derive(Debug, Clone, Copy, PartialEq, Eq, Structural, Hash)]
pub enum IntegerTy {
    Isize,
    I8,
    I16,
    I32,
    I64,
    I128,
    Usize,
    U8,
    U16,
    U32,
    U64,
    U128,
}

/// Mutability of a reference or raw pointer.
#[derive(Debug, Clone, Copy, PartialEq, Eq, Structural, Hash)]
pub enum RefKind {
    Mut,
    Shared,
}

/// Type identifier: factors the treatment of user-defined ADTs, tuples and
/// assumed (built-in) types.
#[derive(Debug, Clone, Copy, PartialEq, Eq, Structural, Hash)]
pub enum TypeId {
    /// A "regular" ADT: a transparent or opaque declaration of this crate
    /// or of an external one.
    Adt(TypeDeclId),
    Tuple,
    /// Assumed type: a primitive container type, or a standard-library
    /// type handled like a primitive one.
    Assumed(AssumedTy),
}

/// Types of primitive values: an integer, bool, or char.
#[derive(Debug, Clone, Copy, PartialEq, Eq, Structural, Hash)]
pub enum LiteralTy {
    Integer(IntegerTy),
    Bool,
    Char,
}

/// Const-generic values: a global constant, a const-generic variable, or a
/// concrete literal.
#[derive(Debug, Clone, Copy, PartialEq, Eq, Structural, Hash)]
pub enum ConstGeneric {
    /// A global constant
    Global(GlobalDeclId),
    /// A const generic variable
    Var(ConstGenericVarId),
    /// A concrete value
    Value(Literal),
}

/// A type.
#[derive(Debug)]
pub enum Ty {
    /// An ADT reference: a user-defined ADT, a tuple (including unit, the
    /// 0-tuple), or an assumed type, applied to generic arguments. The
    /// nature of the ADT is stored in the [TypeId].
    Adt(TypeId, GenericArgs),
    TypeVar(TypeVarId),
    Literal(LiteralTy),
    /// The never type, for computations which don't return. Variables of
    /// this type are eliminated by a dedicated pass, and no pass may
    /// reintroduce reads at this type.
    Never,
    /// A reference, carrying its region.
    Ref(Region, Box<Ty>, RefKind),
    /// A raw pointer.
    RawPtr(Box<Ty>, RefKind),
    /// A trait associated type, projected out of a trait instance.
    TraitType(TraitRef, TraitItemName),
    /// Arrow type, used for local function pointers. Arrow types bind only
    /// generic lifetime parameters: no generic types, no predicates.
    Arrow(Vec<RegionVar>, Vec<Ty>, Box<Ty>),
}

/// Assumed type identifiers. All assumed types are covariant in their
/// generic parameters.
#[derive(Debug, Clone, Copy, PartialEq, Eq, Structural, Hash)]
pub enum AssumedTy {
    /// Boxes receive a special treatment: they are translated as identity.
    Box,
    /// From the standard library, handled like a raw pointer.
    PtrUnique,
    /// From the standard library, handled like a raw pointer.
    PtrNonNull,
    /// Primitive type
    Array,
    /// Primitive type
    Slice,
    /// Primitive type
    Str,
}

/// Counts of the generic parameters of an enclosing scope. Declarations
/// store *all* their generics, including the ones inherited from an outer
/// block; these counts record how many of them belong to the parent, which
/// matters for trait-method-like declarations and closures.
#[derive(Debug, Clone, Copy, PartialEq, Eq, Structural, Hash)]
pub struct ParamsInfo {
    pub num_region_params: usize,
    pub num_type_params: usize,
    pub num_const_generic_params: usize,
    pub num_trait_clauses: usize,
    pub num_regions_outlive: usize,
    pub num_types_outlive: usize,
    pub num_trait_type_constraints: usize,
}

/// The three closure families.
#[derive(Debug, Clone, Copy, PartialEq, Eq, Structural, Hash)]
pub enum ClosureKind {
    Fn,
    FnMut,
    FnOnce,
}

/// Additional information for closures.
#[derive(Debug)]
pub struct ClosureInfo {
    pub kind: ClosureKind,
    /// The types of the fields of the closure state: one field for every
    /// captured place, typically a reference.
    pub state: Vec<Ty>,
}

/// A function signature.
#[derive(Debug)]
pub struct FunSig {
    /// Is the function unsafe or not
    pub is_unsafe: bool,
    /// `true` if the signature is for a closure. In that case the type and
    /// const-generic parameters come from the enclosing function, while
    /// the region variables are local to the closure.
    pub is_closure: bool,
    /// Additional information if this is the signature of a closure.
    pub closure_info: Option<ClosureInfo>,
    pub generics: GenericParams,
    pub preds: Predicates,
    /// For trait methods only: the generic-parameter counts of the parent
    /// scope (see [ParamsInfo]).
    pub parent_params_info: Option<ParamsInfo>,
    pub inputs: Vec<Ty>,
    pub output: Ty,
}

/// Equality of trait clauses, which ignores the diagnostic-position
/// metadata: two clauses are the same obligation whenever their identifier,
/// trait and arguments agree, wherever they were written.
pub open spec fn trait_clause_eq(a: TraitClause, b: TraitClause) -> bool {
    a.clause_id == b.clause_id && a.trait_id == b.trait_id && a.generics == b.generics
}

/// Trait-clause equality disregards the diagnostic metadata entirely.
pub proof fn lemma_trait_clause_eq_ignores_meta(a: TraitClause, b: TraitClause)
    requires
        a.clause_id == b.clause_id,
        a.trait_id == b.trait_id,
        a.generics == b.generics,
    ensures
        trait_clause_eq(a, b),
{
}

} // verus!
