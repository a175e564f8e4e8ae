//! Serialization of every part of a crate snapshot.
//!
//! Each value kind has a specification function giving the exact text of
//! its serialization, and a verified writer appending exactly that text.
//! Structs are written as objects with their fields in declaration order,
//! enums as the variant name or as an object with one field, and lists as
//! arrays. A [Variant]'s runtime discriminant is deliberately absent from
//! its serialization: it is pass-internal bookkeeping, not part of the
//! exported schema.

use crate::gast::{TraitDecl, TraitImpl};
use crate::ids::{
    BlockId, ConstGenericVarId, Disambiguator, FileId, FunDeclId, GlobalDeclId, RegionId,
    TraitClauseId, TraitDeclId, TraitImplId, TypeDeclId, TypeVarId, VarId, VariantId,
};
use crate::json::{
    dec_i128, dec_u128, json_bool, json_string, write_bool, write_i128, write_string,
    write_u128, write_usize,
};
use crate::llbc_ast::{
    FunDecl, GlobalDecl, Operand, Place, ProjectionElem, RawStatement, Rvalue, Statement, Switch,
};
use crate::meta::{FileName, ItemMeta, Loc, Meta, Span};
use crate::names::{ImplElem, ImplElemKind, Name, PathElem};
use crate::reorder_decls::{DeclarationGroup, GDeclarationGroup};
use crate::translate_ctx::TransCtx;
use crate::types::{
    AssumedTy, ClosureInfo, ClosureKind, ConstGeneric, ConstGenericVar, DeBruijnId, Field,
    FunSig, GenericArgs, GenericParams, IntegerTy, LiteralTy, ParamsInfo, Predicates, RefKind,
    Region, RegionOutlives, RegionVar, TraitClause, TraitDeclRef, TraitInstanceId, TraitItemName,
    TraitRef, TraitTypeConstraint, Ty, TypeDecl, TypeDeclKind, TypeId, TypeOutlives, TypeVar,
    Variant,
};
use crate::ullbc_ast;
use crate::values::{Literal, ScalarValue};
use vstd::prelude::*;
use vstd::string::StringExecFns;

verus! {

broadcast use vstd::std_specs::vec::group_vec_axioms;

/// The serialization of a scalar value
#[verifier::opaque]
pub open spec fn json_scalar_value(x: ScalarValue) -> Seq<char>
    decreases x,
{
    match x {
        ScalarValue::Isize(a0) => "{\"Isize\":"@ + dec_i128(a0 as i128) + "}"@,
        ScalarValue::I8(a0) => "{\"I8\":"@ + dec_i128(a0 as i128) + "}"@,
        ScalarValue::I16(a0) => "{\"I16\":"@ + dec_i128(a0 as i128) + "}"@,
        ScalarValue::I32(a0) => "{\"I32\":"@ + dec_i128(a0 as i128) + "}"@,
        ScalarValue::I64(a0) => "{\"I64\":"@ + dec_i128(a0 as i128) + "}"@,
        ScalarValue::I128(a0) => "{\"I128\":"@ + dec_i128(a0 as i128) + "}"@,
        ScalarValue::Usize(a0) => "{\"Usize\":"@ + dec_u128(a0 as u128) + "}"@,
        ScalarValue::U8(a0) => "{\"U8\":"@ + dec_u128(a0 as u128) + "}"@,
        ScalarValue::U16(a0) => "{\"U16\":"@ + dec_u128(a0 as u128) + "}"@,
        ScalarValue::U32(a0) => "{\"U32\":"@ + dec_u128(a0 as u128) + "}"@,
        ScalarValue::U64(a0) => "{\"U64\":"@ + dec_u128(a0 as u128) + "}"@,
        ScalarValue::U128(a0) => "{\"U128\":"@ + dec_u128(a0) + "}"@,
    }
}

/// The serialization of a literal; characters are written as their code point
#[verifier::opaque]
pub open spec fn json_literal(x: Literal) -> Seq<char>
    decreases x,
{
    match x {
        Literal::Scalar(a0) => "{\"Scalar\":"@ + json_scalar_value(a0) + "}"@,
        Literal::Bool(a0) => "{\"Bool\":"@ + json_bool(a0) + "}"@,
        Literal::Char(a0) => "{\"Char\":"@ + dec_u128(a0 as u32 as u128) + "}"@,
    }
}

/// The serialization of a position
#[verifier::opaque]
pub open spec fn json_loc(x: Loc) -> Seq<char>
    decreases x,
{
    "{\"line\":"@ + dec_u128(x.line as u128) + ",\"col\":"@ + dec_u128(x.col as u128) + "}"@
}

/// The serialization of a span
#[verifier::opaque]
pub open spec fn json_span(x: Span) -> Seq<char>
    decreases x,
{
    "{\"file_id\":"@ + dec_u128(x.file_id.index as u128) + ",\"beg\":"@ + json_loc(x.beg) + ",\"end\":"@ + json_loc(x.end) + "}"@
}

/// The serialization of statement metadata
#[verifier::opaque]
pub open spec fn json_meta(x: Meta) -> Seq<char>
    decreases x,
{
    "{\"span\":"@ + json_span(x.span) + ",\"generated_from_span\":"@ + (match x.generated_from_span { Option::Some(v) => json_span(v), Option::None => "null"@ }) + "}"@
}

/// The serialization of a file name
#[verifier::opaque]
pub open spec fn json_file_name(x: FileName) -> Seq<char>
    decreases x,
{
    match x {
        FileName::Virtual(a0) => "{\"Virtual\":"@ + json_string(a0@) + "}"@,
        FileName::Local(a0) => "{\"Local\":"@ + json_string(a0@) + "}"@,
        FileName::NotReal(a0) => "{\"NotReal\":"@ + json_string(a0@) + "}"@,
    }
}

/// The serialization of a list of strings, comma separated.
#[verifier::opaque]
pub open spec fn json_string_list(s: Seq<String>) -> Seq<char>
    decreases s,
{
    if s.len() == 0 {
        Seq::empty()
    } else if s.len() == 1 {
        json_string(s[0]@)
    } else {
        json_string_list(s.drop_last()) + ","@ + json_string(s.last()@)
    }
}

/// The serialization of item metadata
#[verifier::opaque]
pub open spec fn json_item_meta(x: ItemMeta) -> Seq<char>
    decreases x,
{
    "{\"meta\":"@ + json_meta(x.meta) + ",\"attributes\":"@ + ("["@ + json_string_list(x.attributes@) + "]"@) + "}"@
}

/// The serialization of an integer type
#[verifier::opaque]
pub open spec fn json_integer_ty(x: IntegerTy) -> Seq<char>
    decreases x,
{
    match x {
        IntegerTy::Isize => "\"Isize\""@,
        IntegerTy::I8 => "\"I8\""@,
        IntegerTy::I16 => "\"I16\""@,
        IntegerTy::I32 => "\"I32\""@,
        IntegerTy::I64 => "\"I64\""@,
        IntegerTy::I128 => "\"I128\""@,
        IntegerTy::Usize => "\"Usize\""@,
        IntegerTy::U8 => "\"U8\""@,
        IntegerTy::U16 => "\"U16\""@,
        IntegerTy::U32 => "\"U32\""@,
        IntegerTy::U64 => "\"U64\""@,
        IntegerTy::U128 => "\"U128\""@,
    }
}

/// The serialization of a mutability marker
#[verifier::opaque]
pub open spec fn json_ref_kind(x: RefKind) -> Seq<char>
    decreases x,
{
    match x {
        RefKind::Mut => "\"Mut\""@,
        RefKind::Shared => "\"Shared\""@,
    }
}

/// The serialization of an assumed type identifier
#[verifier::opaque]
pub open spec fn json_assumed_ty(x: AssumedTy) -> Seq<char>
    decreases x,
{
    match x {
        AssumedTy::Box => "\"Box\""@,
        AssumedTy::PtrUnique => "\"PtrUnique\""@,
        AssumedTy::PtrNonNull => "\"PtrNonNull\""@,
        AssumedTy::Array => "\"Array\""@,
        AssumedTy::Slice => "\"Slice\""@,
        AssumedTy::Str => "\"Str\""@,
    }
}

/// The serialization of a type identifier
#[verifier::opaque]
pub open spec fn json_type_id(x: TypeId) -> Seq<char>
    decreases x,
{
    match x {
        TypeId::Adt(a0) => "{\"Adt\":"@ + dec_u128(a0.index as u128) + "}"@,
        TypeId::Tuple => "\"Tuple\""@,
        TypeId::Assumed(a0) => "{\"Assumed\":"@ + json_assumed_ty(a0) + "}"@,
    }
}

/// The serialization of a literal type
#[verifier::opaque]
pub open spec fn json_literal_ty(x: LiteralTy) -> Seq<char>
    decreases x,
{
    match x {
        LiteralTy::Integer(a0) => "{\"Integer\":"@ + json_integer_ty(a0) + "}"@,
        LiteralTy::Bool => "\"Bool\""@,
        LiteralTy::Char => "\"Char\""@,
    }
}

/// The serialization of a De Bruijn index, as a bare number
#[verifier::opaque]
pub open spec fn json_de_bruijn_id(x: DeBruijnId) -> Seq<char>
    decreases x,
{
    dec_u128(x.index as u128)
}

/// The serialization of a region
#[verifier::opaque]
pub open spec fn json_region(x: Region) -> Seq<char>
    decreases x,
{
    match x {
        Region::Static => "\"Static\""@,
        Region::BVar(a0, a1) => "{\"BVar\":"@ + "["@ + json_de_bruijn_id(a0) + ","@ + dec_u128(a1.index as u128) + "]"@ + "}"@,
        Region::Erased => "\"Erased\""@,
        Region::Unknown => "\"Unknown\""@,
    }
}

/// The serialization of a const-generic value
#[verifier::opaque]
pub open spec fn json_const_generic(x: ConstGeneric) -> Seq<char>
    decreases x,
{
    match x {
        ConstGeneric::Global(a0) => "{\"Global\":"@ + dec_u128(a0.index as u128) + "}"@,
        ConstGeneric::Var(a0) => "{\"Var\":"@ + dec_u128(a0.index as u128) + "}"@,
        ConstGeneric::Value(a0) => "{\"Value\":"@ + json_literal(a0) + "}"@,
    }
}

/// The serialization of a type variable
#[verifier::opaque]
pub open spec fn json_type_var(x: TypeVar) -> Seq<char>
    decreases x,
{
    "{\"index\":"@ + dec_u128(x.index.index as u128) + ",\"name\":"@ + json_string(x.name@) + "}"@
}

/// The serialization of a region variable
#[verifier::opaque]
pub open spec fn json_region_var(x: RegionVar) -> Seq<char>
    decreases x,
{
    "{\"index\":"@ + dec_u128(x.index.index as u128) + ",\"name\":"@ + (match x.name { Option::Some(v) => json_string(v@), Option::None => "null"@ }) + "}"@
}

/// The serialization of a const-generic variable
#[verifier::opaque]
pub open spec fn json_const_generic_var(x: ConstGenericVar) -> Seq<char>
    decreases x,
{
    "{\"index\":"@ + dec_u128(x.index.index as u128) + ",\"name\":"@ + json_string(x.name@) + ",\"ty\":"@ + json_literal_ty(x.ty) + "}"@
}

/// The serialization of a trait item name, as a bare string
#[verifier::opaque]
pub open spec fn json_trait_item_name(x: TraitItemName) -> Seq<char>
    decreases x,
{
    json_string(x.0@)
}

/// The serialization of regions, comma separated.
#[verifier::opaque]
pub open spec fn json_region_list(s: Seq<Region>) -> Seq<char>
    decreases s,
{
    if s.len() == 0 {
        Seq::empty()
    } else if s.len() == 1 {
        json_region(s[0])
    } else {
        json_region_list(s.drop_last()) + ","@ + json_region(s.last())
    }
}

/// The serialization of types, comma separated.
#[verifier::opaque]
pub open spec fn json_ty_list(s: Seq<Ty>) -> Seq<char>
    decreases s,
{
    if s.len() == 0 {
        Seq::empty()
    } else if s.len() == 1 {
        json_ty(s[0])
    } else {
        json_ty_list(s.drop_last()) + ","@ + json_ty(s.last())
    }
}

/// The serialization of const-generic values, comma separated.
#[verifier::opaque]
pub open spec fn json_const_generic_list(s: Seq<ConstGeneric>) -> Seq<char>
    decreases s,
{
    if s.len() == 0 {
        Seq::empty()
    } else if s.len() == 1 {
        json_const_generic(s[0])
    } else {
        json_const_generic_list(s.drop_last()) + ","@ + json_const_generic(s.last())
    }
}

/// The serialization of trait references, comma separated.
#[verifier::opaque]
pub open spec fn json_trait_ref_list(s: Seq<TraitRef>) -> Seq<char>
    decreases s,
{
    if s.len() == 0 {
        Seq::empty()
    } else if s.len() == 1 {
        json_trait_ref(s[0])
    } else {
        json_trait_ref_list(s.drop_last()) + ","@ + json_trait_ref(s.last())
    }
}

/// The serialization of generic arguments
#[verifier::opaque]
pub open spec fn json_generic_args(x: GenericArgs) -> Seq<char>
    decreases x,
{
    "{\"regions\":"@ + ("["@ + json_region_list(x.regions@) + "]"@) + ",\"types\":"@ + ("["@ + json_ty_list(x.types@) + "]"@) + ",\"const_generics\":"@ + ("["@ + json_const_generic_list(x.const_generics@) + "]"@) + ",\"trait_refs\":"@ + ("["@ + json_trait_ref_list(x.trait_refs@) + "]"@) + "}"@
}

/// The serialization of a trait-instance witness
#[verifier::opaque]
pub open spec fn json_trait_instance_id(x: TraitInstanceId) -> Seq<char>
    decreases x,
{
    match x {
        TraitInstanceId::TraitImpl(a0) => "{\"TraitImpl\":"@ + dec_u128(a0.index as u128) + "}"@,
        TraitInstanceId::BuiltinOrAuto(a0) => "{\"BuiltinOrAuto\":"@ + dec_u128(a0.index as u128) + "}"@,
        TraitInstanceId::Clause(a0) => "{\"Clause\":"@ + dec_u128(a0.index as u128) + "}"@,
        TraitInstanceId::ParentClause(a0, a1, a2) => "{\"ParentClause\":"@ + "["@ + json_trait_instance_id((*a0)) + ","@ + dec_u128(a1.index as u128) + ","@ + dec_u128(a2.index as u128) + "]"@ + "}"@,
        TraitInstanceId::ItemClause(a0, a1, a2, a3) => "{\"ItemClause\":"@ + "["@ + json_trait_instance_id((*a0)) + ","@ + dec_u128(a1.index as u128) + ","@ + json_trait_item_name(a2) + ","@ + dec_u128(a3.index as u128) + "]"@ + "}"@,
        TraitInstanceId::FnPointer(a0) => "{\"FnPointer\":"@ + json_ty((*a0)) + "}"@,
        TraitInstanceId::Closure(a0, a1) => "{\"Closure\":"@ + "["@ + dec_u128(a0.index as u128) + ","@ + json_generic_args(a1) + "]"@ + "}"@,
        TraitInstanceId::SelfId => "\"SelfId\""@,
        TraitInstanceId::Unsolved(a0, a1) => "{\"Unsolved\":"@ + "["@ + dec_u128(a0.index as u128) + ","@ + json_generic_args(a1) + "]"@ + "}"@,
        TraitInstanceId::Unknown(a0) => "{\"Unknown\":"@ + json_string(a0@) + "}"@,
    }
}

/// The serialization of a trait-declaration reference
#[verifier::opaque]
pub open spec fn json_trait_decl_ref(x: TraitDeclRef) -> Seq<char>
    decreases x,
{
    "{\"trait_id\":"@ + dec_u128(x.trait_id.index as u128) + ",\"generics\":"@ + json_generic_args(x.generics) + "}"@
}

/// The serialization of a trait reference
#[verifier::opaque]
pub open spec fn json_trait_ref(x: TraitRef) -> Seq<char>
    decreases x,
{
    "{\"trait_id\":"@ + json_trait_instance_id(x.trait_id) + ",\"generics\":"@ + json_generic_args(x.generics) + ",\"trait_decl_ref\":"@ + json_trait_decl_ref(x.trait_decl_ref) + "}"@
}

/// The serialization of region variables, comma separated.
#[verifier::opaque]
pub open spec fn json_region_var_list(s: Seq<RegionVar>) -> Seq<char>
    decreases s,
{
    if s.len() == 0 {
        Seq::empty()
    } else if s.len() == 1 {
        json_region_var(s[0])
    } else {
        json_region_var_list(s.drop_last()) + ","@ + json_region_var(s.last())
    }
}

/// The serialization of a type
#[verifier::opaque]
pub open spec fn json_ty(x: Ty) -> Seq<char>
    decreases x,
{
    match x {
        Ty::Adt(a0, a1) => "{\"Adt\":"@ + "["@ + json_type_id(a0) + ","@ + json_generic_args(a1) + "]"@ + "}"@,
        Ty::TypeVar(a0) => "{\"TypeVar\":"@ + dec_u128(a0.index as u128) + "}"@,
        Ty::Literal(a0) => "{\"Literal\":"@ + json_literal_ty(a0) + "}"@,
        Ty::Never => "\"Never\""@,
        Ty::Ref(a0, a1, a2) => "{\"Ref\":"@ + "["@ + json_region(a0) + ","@ + json_ty((*a1)) + ","@ + json_ref_kind(a2) + "]"@ + "}"@,
        Ty::RawPtr(a0, a1) => "{\"RawPtr\":"@ + "["@ + json_ty((*a0)) + ","@ + json_ref_kind(a1) + "]"@ + "}"@,
        Ty::TraitType(a0, a1) => "{\"TraitType\":"@ + "["@ + json_trait_ref(a0) + ","@ + json_trait_item_name(a1) + "]"@ + "}"@,
        Ty::Arrow(a0, a1, a2) => "{\"Arrow\":"@ + "["@ + ("["@ + json_region_var_list(a0@) + "]"@) + ","@ + ("["@ + json_ty_list(a1@) + "]"@) + ","@ + json_ty((*a2)) + "]"@ + "}"@,
    }
}

/// The serialization of a region-outlives constraint
#[verifier::opaque]
pub open spec fn json_region_outlives(x: RegionOutlives) -> Seq<char>
    decreases x,
{
    "["@ + json_region(x.0) + ","@ + json_region(x.1) + "]"@
}

/// The serialization of a type-outlives constraint
#[verifier::opaque]
pub open spec fn json_type_outlives(x: TypeOutlives) -> Seq<char>
    decreases x,
{
    "["@ + json_ty(x.0) + ","@ + json_region(x.1) + "]"@
}

/// The serialization of an associated-type constraint
#[verifier::opaque]
pub open spec fn json_trait_type_constraint(x: TraitTypeConstraint) -> Seq<char>
    decreases x,
{
    "{\"trait_ref\":"@ + json_trait_ref(x.trait_ref) + ",\"ty_name\":"@ + json_trait_item_name(x.ty_name) + ",\"ty\":"@ + json_ty(x.ty) + "}"@
}

/// The serialization of region-outlives constraints, comma separated.
#[verifier::opaque]
pub open spec fn json_region_outlives_list(s: Seq<RegionOutlives>) -> Seq<char>
    decreases s,
{
    if s.len() == 0 {
        Seq::empty()
    } else if s.len() == 1 {
        json_region_outlives(s[0])
    } else {
        json_region_outlives_list(s.drop_last()) + ","@ + json_region_outlives(s.last())
    }
}

/// The serialization of type-outlives constraints, comma separated.
#[verifier::opaque]
pub open spec fn json_type_outlives_list(s: Seq<TypeOutlives>) -> Seq<char>
    decreases s,
{
    if s.len() == 0 {
        Seq::empty()
    } else if s.len() == 1 {
        json_type_outlives(s[0])
    } else {
        json_type_outlives_list(s.drop_last()) + ","@ + json_type_outlives(s.last())
    }
}

/// The serialization of associated-type constraints, comma separated.
#[verifier::opaque]
pub open spec fn json_trait_type_constraint_list(s: Seq<TraitTypeConstraint>) -> Seq<char>
    decreases s,
{
    if s.len() == 0 {
        Seq::empty()
    } else if s.len() == 1 {
        json_trait_type_constraint(s[0])
    } else {
        json_trait_type_constraint_list(s.drop_last()) + ","@ + json_trait_type_constraint(s.last())
    }
}

/// The serialization of the predicates of a declaration
#[verifier::opaque]
pub open spec fn json_predicates(x: Predicates) -> Seq<char>
    decreases x,
{
    "{\"regions_outlive\":"@ + ("["@ + json_region_outlives_list(x.regions_outlive@) + "]"@) + ",\"types_outlive\":"@ + ("["@ + json_type_outlives_list(x.types_outlive@) + "]"@) + ",\"trait_type_constraints\":"@ + ("["@ + json_trait_type_constraint_list(x.trait_type_constraints@) + "]"@) + "}"@
}

/// The serialization of a trait clause
#[verifier::opaque]
pub open spec fn json_trait_clause(x: TraitClause) -> Seq<char>
    decreases x,
{
    "{\"clause_id\":"@ + dec_u128(x.clause_id.index as u128) + ",\"meta\":"@ + (match x.meta { Option::Some(v) => json_meta(v), Option::None => "null"@ }) + ",\"trait_id\":"@ + dec_u128(x.trait_id.index as u128) + ",\"generics\":"@ + json_generic_args(x.generics) + "}"@
}

/// The serialization of type variables, comma separated.
#[verifier::opaque]
pub open spec fn json_type_var_list(s: Seq<TypeVar>) -> Seq<char>
    decreases s,
{
    if s.len() == 0 {
        Seq::empty()
    } else if s.len() == 1 {
        json_type_var(s[0])
    } else {
        json_type_var_list(s.drop_last()) + ","@ + json_type_var(s.last())
    }
}

/// The serialization of const-generic variables, comma separated.
#[verifier::opaque]
pub open spec fn json_const_generic_var_list(s: Seq<ConstGenericVar>) -> Seq<char>
    decreases s,
{
    if s.len() == 0 {
        Seq::empty()
    } else if s.len() == 1 {
        json_const_generic_var(s[0])
    } else {
        json_const_generic_var_list(s.drop_last()) + ","@ + json_const_generic_var(s.last())
    }
}

/// The serialization of trait clauses, comma separated.
#[verifier::opaque]
pub open spec fn json_trait_clause_list(s: Seq<TraitClause>) -> Seq<char>
    decreases s,
{
    if s.len() == 0 {
        Seq::empty()
    } else if s.len() == 1 {
        json_trait_clause(s[0])
    } else {
        json_trait_clause_list(s.drop_last()) + ","@ + json_trait_clause(s.last())
    }
}

/// The serialization of generic parameters
#[verifier::opaque]
pub open spec fn json_generic_params(x: GenericParams) -> Seq<char>
    decreases x,
{
    "{\"regions\":"@ + ("["@ + json_region_var_list(x.regions@) + "]"@) + ",\"types\":"@ + ("["@ + json_type_var_list(x.types@) + "]"@) + ",\"const_generics\":"@ + ("["@ + json_const_generic_var_list(x.const_generics@) + "]"@) + ",\"trait_clauses\":"@ + ("["@ + json_trait_clause_list(x.trait_clauses@) + "]"@) + "}"@
}

/// The serialization of the kind of an impl-block path element
#[verifier::opaque]
pub open spec fn json_impl_elem_kind(x: ImplElemKind) -> Seq<char>
    decreases x,
{
    match x {
        ImplElemKind::Ty(a0) => "{\"Ty\":"@ + json_ty(a0) + "}"@,
        ImplElemKind::Trait(a0) => "{\"Trait\":"@ + json_trait_decl_ref(a0) + "}"@,
    }
}

/// The serialization of an impl-block path element
#[verifier::opaque]
pub open spec fn json_impl_elem(x: ImplElem) -> Seq<char>
    decreases x,
{
    "{\"disambiguator\":"@ + dec_u128(x.disambiguator.index as u128) + ",\"generics\":"@ + json_generic_params(x.generics) + ",\"preds\":"@ + json_predicates(x.preds) + ",\"kind\":"@ + json_impl_elem_kind(x.kind) + "}"@
}

/// The serialization of a path element
#[verifier::opaque]
pub open spec fn json_path_elem(x: PathElem) -> Seq<char>
    decreases x,
{
    match x {
        PathElem::Ident(a0, a1) => "{\"Ident\":"@ + "["@ + json_string(a0@) + ","@ + dec_u128(a1.index as u128) + "]"@ + "}"@,
        PathElem::Impl(a0) => "{\"Impl\":"@ + json_impl_elem(a0) + "}"@,
    }
}

/// The serialization of path elements, comma separated.
#[verifier::opaque]
pub open spec fn json_path_elem_list(s: Seq<PathElem>) -> Seq<char>
    decreases s,
{
    if s.len() == 0 {
        Seq::empty()
    } else if s.len() == 1 {
        json_path_elem(s[0])
    } else {
        json_path_elem_list(s.drop_last()) + ","@ + json_path_elem(s.last())
    }
}

/// The serialization of an item name, as the bare array of its elements
#[verifier::opaque]
pub open spec fn json_name(x: Name) -> Seq<char>
    decreases x,
{
    ("["@ + json_path_elem_list(x.name@) + "]"@)
}

/// The serialization of a field
#[verifier::opaque]
pub open spec fn json_field(x: Field) -> Seq<char>
    decreases x,
{
    "{\"meta\":"@ + json_meta(x.meta) + ",\"name\":"@ + (match x.name { Option::Some(v) => json_string(v@), Option::None => "null"@ }) + ",\"ty\":"@ + json_ty(x.ty) + "}"@
}

/// The serialization of fields, comma separated.
#[verifier::opaque]
pub open spec fn json_field_list(s: Seq<Field>) -> Seq<char>
    decreases s,
{
    if s.len() == 0 {
        Seq::empty()
    } else if s.len() == 1 {
        json_field(s[0])
    } else {
        json_field_list(s.drop_last()) + ","@ + json_field(s.last())
    }
}

/// The serialization of a variant. The runtime discriminant is pass-internal bookkeeping and is never serialized
#[verifier::opaque]
pub open spec fn json_variant(x: Variant) -> Seq<char>
    decreases x,
{
    "{\"meta\":"@ + json_meta(x.meta) + ",\"name\":"@ + json_string(x.name@) + ",\"fields\":"@ + ("["@ + json_field_list(x.fields@) + "]"@) + "}"@
}

/// The serialization of variants, comma separated.
#[verifier::opaque]
pub open spec fn json_variant_list(s: Seq<Variant>) -> Seq<char>
    decreases s,
{
    if s.len() == 0 {
        Seq::empty()
    } else if s.len() == 1 {
        json_variant(s[0])
    } else {
        json_variant_list(s.drop_last()) + ","@ + json_variant(s.last())
    }
}

/// The serialization of a type-declaration kind
#[verifier::opaque]
pub open spec fn json_type_decl_kind(x: TypeDeclKind) -> Seq<char>
    decreases x,
{
    match x {
        TypeDeclKind::Struct(a0) => "{\"Struct\":"@ + ("["@ + json_field_list(a0@) + "]"@) + "}"@,
        TypeDeclKind::Enum(a0) => "{\"Enum\":"@ + ("["@ + json_variant_list(a0@) + "]"@) + "}"@,
        TypeDeclKind::Opaque => "\"Opaque\""@,
        TypeDeclKind::Error(a0) => "{\"Error\":"@ + json_string(a0@) + "}"@,
    }
}

/// The serialization of a type declaration
#[verifier::opaque]
pub open spec fn json_type_decl(x: TypeDecl) -> Seq<char>
    decreases x,
{
    "{\"def_id\":"@ + dec_u128(x.def_id.index as u128) + ",\"item_meta\":"@ + json_item_meta(x.item_meta) + ",\"is_local\":"@ + json_bool(x.is_local) + ",\"name\":"@ + json_name(x.name) + ",\"generics\":"@ + json_generic_params(x.generics) + ",\"preds\":"@ + json_predicates(x.preds) + ",\"kind\":"@ + json_type_decl_kind(x.kind) + "}"@
}

/// The serialization of type declarations, comma separated.
#[verifier::opaque]
pub open spec fn json_type_decl_list(s: Seq<TypeDecl>) -> Seq<char>
    decreases s,
{
    if s.len() == 0 {
        Seq::empty()
    } else if s.len() == 1 {
        json_type_decl(s[0])
    } else {
        json_type_decl_list(s.drop_last()) + ","@ + json_type_decl(s.last())
    }
}

/// The serialization of parent-scope parameter counts
#[verifier::opaque]
pub open spec fn json_params_info(x: ParamsInfo) -> Seq<char>
    decreases x,
{
    "{\"num_region_params\":"@ + dec_u128(x.num_region_params as u128) + ",\"num_type_params\":"@ + dec_u128(x.num_type_params as u128) + ",\"num_const_generic_params\":"@ + dec_u128(x.num_const_generic_params as u128) + ",\"num_trait_clauses\":"@ + dec_u128(x.num_trait_clauses as u128) + ",\"num_regions_outlive\":"@ + dec_u128(x.num_regions_outlive as u128) + ",\"num_types_outlive\":"@ + dec_u128(x.num_types_outlive as u128) + ",\"num_trait_type_constraints\":"@ + dec_u128(x.num_trait_type_constraints as u128) + "}"@
}

/// The serialization of a closure kind
#[verifier::opaque]
pub open spec fn json_closure_kind(x: ClosureKind) -> Seq<char>
    decreases x,
{
    match x {
        ClosureKind::Fn => "\"Fn\""@,
        ClosureKind::FnMut => "\"FnMut\""@,
        ClosureKind::FnOnce => "\"FnOnce\""@,
    }
}

/// The serialization of closure information
#[verifier::opaque]
pub open spec fn json_closure_info(x: ClosureInfo) -> Seq<char>
    decreases x,
{
    "{\"kind\":"@ + json_closure_kind(x.kind) + ",\"state\":"@ + ("["@ + json_ty_list(x.state@) + "]"@) + "}"@
}

/// The serialization of a function signature
#[verifier::opaque]
pub open spec fn json_fun_sig(x: FunSig) -> Seq<char>
    decreases x,
{
    "{\"is_unsafe\":"@ + json_bool(x.is_unsafe) + ",\"is_closure\":"@ + json_bool(x.is_closure) + ",\"closure_info\":"@ + (match x.closure_info { Option::Some(v) => json_closure_info(v), Option::None => "null"@ }) + ",\"generics\":"@ + json_generic_params(x.generics) + ",\"preds\":"@ + json_predicates(x.preds) + ",\"parent_params_info\":"@ + (match x.parent_params_info { Option::Some(v) => json_params_info(v), Option::None => "null"@ }) + ",\"inputs\":"@ + ("["@ + json_ty_list(x.inputs@) + "]"@) + ",\"output\":"@ + json_ty(x.output) + "}"@
}

/// The serialization of a trait declaration
#[verifier::opaque]
pub open spec fn json_trait_decl(x: TraitDecl) -> Seq<char>
    decreases x,
{
    "{\"def_id\":"@ + dec_u128(x.def_id.index as u128) + ",\"item_meta\":"@ + json_item_meta(x.item_meta) + ",\"name\":"@ + json_name(x.name) + ",\"generics\":"@ + json_generic_params(x.generics) + ",\"preds\":"@ + json_predicates(x.preds) + ",\"parent_clauses\":"@ + ("["@ + json_trait_clause_list(x.parent_clauses@) + "]"@) + "}"@
}

/// The serialization of trait declarations, comma separated.
#[verifier::opaque]
pub open spec fn json_trait_decl_list(s: Seq<TraitDecl>) -> Seq<char>
    decreases s,
{
    if s.len() == 0 {
        Seq::empty()
    } else if s.len() == 1 {
        json_trait_decl(s[0])
    } else {
        json_trait_decl_list(s.drop_last()) + ","@ + json_trait_decl(s.last())
    }
}

/// The serialization of a trait implementation
#[verifier::opaque]
pub open spec fn json_trait_impl(x: TraitImpl) -> Seq<char>
    decreases x,
{
    "{\"def_id\":"@ + dec_u128(x.def_id.index as u128) + ",\"item_meta\":"@ + json_item_meta(x.item_meta) + ",\"name\":"@ + json_name(x.name) + ",\"impl_trait\":"@ + json_trait_decl_ref(x.impl_trait) + ",\"generics\":"@ + json_generic_params(x.generics) + ",\"preds\":"@ + json_predicates(x.preds) + "}"@
}

/// The serialization of trait implementations, comma separated.
#[verifier::opaque]
pub open spec fn json_trait_impl_list(s: Seq<TraitImpl>) -> Seq<char>
    decreases s,
{
    if s.len() == 0 {
        Seq::empty()
    } else if s.len() == 1 {
        json_trait_impl(s[0])
    } else {
        json_trait_impl_list(s.drop_last()) + ","@ + json_trait_impl(s.last())
    }
}

/// The serialization of a projection element
#[verifier::opaque]
pub open spec fn json_projection_elem(x: ProjectionElem) -> Seq<char>
    decreases x,
{
    match x {
        ProjectionElem::Deref => "\"Deref\""@,
        ProjectionElem::Field(a0) => "{\"Field\":"@ + dec_u128(a0.index as u128) + "}"@,
    }
}

/// The serialization of projections, comma separated.
#[verifier::opaque]
pub open spec fn json_projection_elem_list(s: Seq<ProjectionElem>) -> Seq<char>
    decreases s,
{
    if s.len() == 0 {
        Seq::empty()
    } else if s.len() == 1 {
        json_projection_elem(s[0])
    } else {
        json_projection_elem_list(s.drop_last()) + ","@ + json_projection_elem(s.last())
    }
}

/// The serialization of a place
#[verifier::opaque]
pub open spec fn json_place(x: Place) -> Seq<char>
    decreases x,
{
    "{\"var_id\":"@ + dec_u128(x.var_id.index as u128) + ",\"projection\":"@ + ("["@ + json_projection_elem_list(x.projection@) + "]"@) + "}"@
}

/// The serialization of an operand
#[verifier::opaque]
pub open spec fn json_operand(x: Operand) -> Seq<char>
    decreases x,
{
    match x {
        Operand::Copy(a0) => "{\"Copy\":"@ + json_place(a0) + "}"@,
        Operand::Move(a0) => "{\"Move\":"@ + json_place(a0) + "}"@,
        Operand::Const(a0) => "{\"Const\":"@ + json_literal(a0) + "}"@,
    }
}

/// The serialization of an rvalue
#[verifier::opaque]
pub open spec fn json_rvalue(x: Rvalue) -> Seq<char>
    decreases x,
{
    match x {
        Rvalue::Use(a0) => "{\"Use\":"@ + json_operand(a0) + "}"@,
        Rvalue::Ref(a0, a1) => "{\"Ref\":"@ + "["@ + json_place(a0) + ","@ + json_ref_kind(a1) + "]"@ + "}"@,
        Rvalue::Discriminant(a0, a1) => "{\"Discriminant\":"@ + "["@ + json_place(a0) + ","@ + dec_u128(a1.index as u128) + "]"@ + "}"@,
    }
}

/// The serialization of scalar values, comma separated.
#[verifier::opaque]
pub open spec fn json_scalar_value_list(s: Seq<ScalarValue>) -> Seq<char>
    decreases s,
{
    if s.len() == 0 {
        Seq::empty()
    } else if s.len() == 1 {
        json_scalar_value(s[0])
    } else {
        json_scalar_value_list(s.drop_last()) + ","@ + json_scalar_value(s.last())
    }
}

/// The serialization of variant identifiers, comma separated.
#[verifier::opaque]
pub open spec fn json_variant_id_list(s: Seq<VariantId>) -> Seq<char>
    decreases s,
{
    if s.len() == 0 {
        Seq::empty()
    } else if s.len() == 1 {
        dec_u128(s[0].index as u128)
    } else {
        json_variant_id_list(s.drop_last()) + ","@ + dec_u128(s.last().index as u128)
    }
}

/// The serialization of one arm of an integer switch
#[verifier::opaque]
pub open spec fn json_int_arm(x: (Vec<ScalarValue>, Statement)) -> Seq<char>
    decreases x,
{
    "["@ + ("["@ + json_scalar_value_list(x.0@) + "]"@) + ","@ + json_statement(x.1) + "]"@
}

/// The serialization of the arms of an integer switch, comma separated.
#[verifier::opaque]
pub open spec fn json_int_arm_list(s: Seq<(Vec<ScalarValue>, Statement)>) -> Seq<char>
    decreases s,
{
    if s.len() == 0 {
        Seq::empty()
    } else if s.len() == 1 {
        json_int_arm(s[0])
    } else {
        json_int_arm_list(s.drop_last()) + ","@ + json_int_arm(s.last())
    }
}

/// The serialization of one arm of a match
#[verifier::opaque]
pub open spec fn json_match_arm(x: (Vec<VariantId>, Statement)) -> Seq<char>
    decreases x,
{
    "["@ + ("["@ + json_variant_id_list(x.0@) + "]"@) + ","@ + json_statement(x.1) + "]"@
}

/// The serialization of the arms of a match, comma separated.
#[verifier::opaque]
pub open spec fn json_match_arm_list(s: Seq<(Vec<VariantId>, Statement)>) -> Seq<char>
    decreases s,
{
    if s.len() == 0 {
        Seq::empty()
    } else if s.len() == 1 {
        json_match_arm(s[0])
    } else {
        json_match_arm_list(s.drop_last()) + ","@ + json_match_arm(s.last())
    }
}

/// The serialization of a switch
#[verifier::opaque]
pub open spec fn json_switch(x: Switch) -> Seq<char>
    decreases x,
{
    match x {
        Switch::If(a0, a1, a2) => "{\"If\":"@ + "["@ + json_operand(a0) + ","@ + json_statement((*a1)) + ","@ + json_statement((*a2)) + "]"@ + "}"@,
        Switch::SwitchInt(a0, a1, a2, a3) => "{\"SwitchInt\":"@ + "["@ + json_operand(a0) + ","@ + json_integer_ty(a1) + ","@ + ("["@ + json_int_arm_list(a2@) + "]"@) + ","@ + json_statement((*a3)) + "]"@ + "}"@,
        Switch::Match(a0, a1, a2) => "{\"Match\":"@ + "["@ + json_place(a0) + ","@ + ("["@ + json_match_arm_list(a1@) + "]"@) + ","@ + (match a2 { Option::Some(v) => json_statement((*v)), Option::None => "null"@ }) + "]"@ + "}"@,
    }
}

/// The serialization of a raw statement
#[verifier::opaque]
pub open spec fn json_raw_statement(x: RawStatement) -> Seq<char>
    decreases x,
{
    match x {
        RawStatement::Assign(a0, a1) => "{\"Assign\":"@ + "["@ + json_place(a0) + ","@ + json_rvalue(a1) + "]"@ + "}"@,
        RawStatement::Drop(a0) => "{\"Drop\":"@ + json_place(a0) + "}"@,
        RawStatement::Nop => "\"Nop\""@,
        RawStatement::Return => "\"Return\""@,
        RawStatement::Sequence(a0, a1) => "{\"Sequence\":"@ + "["@ + json_statement((*a0)) + ","@ + json_statement((*a1)) + "]"@ + "}"@,
        RawStatement::Switch(a0) => "{\"Switch\":"@ + json_switch(a0) + "}"@,
        RawStatement::Loop(a0) => "{\"Loop\":"@ + json_statement((*a0)) + "}"@,
    }
}

/// The serialization of a statement
#[verifier::opaque]
pub open spec fn json_statement(x: Statement) -> Seq<char>
    decreases x,
{
    "{\"meta\":"@ + json_meta(x.meta) + ",\"content\":"@ + json_raw_statement(x.content) + "}"@
}

/// The serialization of a function declaration with a structured body
#[verifier::opaque]
pub open spec fn json_fun_decl(x: FunDecl) -> Seq<char>
    decreases x,
{
    "{\"def_id\":"@ + dec_u128(x.def_id.index as u128) + ",\"item_meta\":"@ + json_item_meta(x.item_meta) + ",\"is_local\":"@ + json_bool(x.is_local) + ",\"name\":"@ + json_name(x.name) + ",\"signature\":"@ + json_fun_sig(x.signature) + ",\"body\":"@ + (match x.body { Option::Some(v) => json_statement(v), Option::None => "null"@ }) + "}"@
}

/// The serialization of structured function declarations, comma separated.
#[verifier::opaque]
pub open spec fn json_fun_decl_list(s: Seq<FunDecl>) -> Seq<char>
    decreases s,
{
    if s.len() == 0 {
        Seq::empty()
    } else if s.len() == 1 {
        json_fun_decl(s[0])
    } else {
        json_fun_decl_list(s.drop_last()) + ","@ + json_fun_decl(s.last())
    }
}

/// The serialization of a global declaration with a structured body
#[verifier::opaque]
pub open spec fn json_global_decl(x: GlobalDecl) -> Seq<char>
    decreases x,
{
    "{\"def_id\":"@ + dec_u128(x.def_id.index as u128) + ",\"item_meta\":"@ + json_item_meta(x.item_meta) + ",\"is_local\":"@ + json_bool(x.is_local) + ",\"name\":"@ + json_name(x.name) + ",\"ty\":"@ + json_ty(x.ty) + ",\"body\":"@ + (match x.body { Option::Some(v) => json_statement(v), Option::None => "null"@ }) + "}"@
}

/// The serialization of structured global declarations, comma separated.
#[verifier::opaque]
pub open spec fn json_global_decl_list(s: Seq<GlobalDecl>) -> Seq<char>
    decreases s,
{
    if s.len() == 0 {
        Seq::empty()
    } else if s.len() == 1 {
        json_global_decl(s[0])
    } else {
        json_global_decl_list(s.drop_last()) + ","@ + json_global_decl(s.last())
    }
}

/// The serialization of a raw block statement
#[verifier::opaque]
pub open spec fn json_u_raw_statement(x: ullbc_ast::RawStatement) -> Seq<char>
    decreases x,
{
    match x {
        ullbc_ast::RawStatement::Assign(a0, a1) => "{\"Assign\":"@ + "["@ + json_place(a0) + ","@ + json_rvalue(a1) + "]"@ + "}"@,
        ullbc_ast::RawStatement::Drop(a0) => "{\"Drop\":"@ + json_place(a0) + "}"@,
        ullbc_ast::RawStatement::Nop => "\"Nop\""@,
    }
}

/// The serialization of a block statement
#[verifier::opaque]
pub open spec fn json_u_statement(x: ullbc_ast::Statement) -> Seq<char>
    decreases x,
{
    "{\"meta\":"@ + json_meta(x.meta) + ",\"content\":"@ + json_u_raw_statement(x.content) + "}"@
}

/// The serialization of block statements, comma separated.
#[verifier::opaque]
pub open spec fn json_u_statement_list(s: Seq<ullbc_ast::Statement>) -> Seq<char>
    decreases s,
{
    if s.len() == 0 {
        Seq::empty()
    } else if s.len() == 1 {
        json_u_statement(s[0])
    } else {
        json_u_statement_list(s.drop_last()) + ","@ + json_u_statement(s.last())
    }
}

/// The serialization of one target of an unstructured switch
#[verifier::opaque]
pub open spec fn json_u_switch_arm(x: (ScalarValue, BlockId)) -> Seq<char>
    decreases x,
{
    "["@ + json_scalar_value(x.0) + ","@ + dec_u128(x.1.index as u128) + "]"@
}

/// The serialization of the targets of an unstructured switch, comma separated.
#[verifier::opaque]
pub open spec fn json_u_switch_arm_list(s: Seq<(ScalarValue, BlockId)>) -> Seq<char>
    decreases s,
{
    if s.len() == 0 {
        Seq::empty()
    } else if s.len() == 1 {
        json_u_switch_arm(s[0])
    } else {
        json_u_switch_arm_list(s.drop_last()) + ","@ + json_u_switch_arm(s.last())
    }
}

/// The serialization of a raw terminator
#[verifier::opaque]
pub open spec fn json_raw_terminator(x: ullbc_ast::RawTerminator) -> Seq<char>
    decreases x,
{
    match x {
        ullbc_ast::RawTerminator::Goto(a0) => "{\"Goto\":"@ + dec_u128(a0.index as u128) + "}"@,
        ullbc_ast::RawTerminator::Switch(a0, a1, a2, a3) => "{\"Switch\":"@ + "["@ + json_operand(a0) + ","@ + json_integer_ty(a1) + ","@ + ("["@ + json_u_switch_arm_list(a2@) + "]"@) + ","@ + dec_u128(a3.index as u128) + "]"@ + "}"@,
        ullbc_ast::RawTerminator::Return => "\"Return\""@,
        ullbc_ast::RawTerminator::Unreachable => "\"Unreachable\""@,
    }
}

/// The serialization of a terminator
#[verifier::opaque]
pub open spec fn json_terminator(x: ullbc_ast::Terminator) -> Seq<char>
    decreases x,
{
    "{\"meta\":"@ + json_meta(x.meta) + ",\"content\":"@ + json_raw_terminator(x.content) + "}"@
}

/// The serialization of a basic block
#[verifier::opaque]
pub open spec fn json_block_data(x: ullbc_ast::BlockData) -> Seq<char>
    decreases x,
{
    "{\"statements\":"@ + ("["@ + json_u_statement_list(x.statements@) + "]"@) + ",\"terminator\":"@ + json_terminator(x.terminator) + "}"@
}

/// The serialization of the blocks of an unstructured body, comma separated.
#[verifier::opaque]
pub open spec fn json_block_data_list(s: Seq<ullbc_ast::BlockData>) -> Seq<char>
    decreases s,
{
    if s.len() == 0 {
        Seq::empty()
    } else if s.len() == 1 {
        json_block_data(s[0])
    } else {
        json_block_data_list(s.drop_last()) + ","@ + json_block_data(s.last())
    }
}

/// The serialization of a function declaration with an unstructured body
#[verifier::opaque]
pub open spec fn json_u_fun_decl(x: ullbc_ast::FunDecl) -> Seq<char>
    decreases x,
{
    "{\"def_id\":"@ + dec_u128(x.def_id.index as u128) + ",\"item_meta\":"@ + json_item_meta(x.item_meta) + ",\"is_local\":"@ + json_bool(x.is_local) + ",\"name\":"@ + json_name(x.name) + ",\"signature\":"@ + json_fun_sig(x.signature) + ",\"body\":"@ + (match x.body { Option::Some(v) => ("["@ + json_block_data_list(v@) + "]"@), Option::None => "null"@ }) + "}"@
}

/// The serialization of unstructured function declarations, comma separated.
#[verifier::opaque]
pub open spec fn json_u_fun_decl_list(s: Seq<ullbc_ast::FunDecl>) -> Seq<char>
    decreases s,
{
    if s.len() == 0 {
        Seq::empty()
    } else if s.len() == 1 {
        json_u_fun_decl(s[0])
    } else {
        json_u_fun_decl_list(s.drop_last()) + ","@ + json_u_fun_decl(s.last())
    }
}

/// The serialization of a global declaration with an unstructured body
#[verifier::opaque]
pub open spec fn json_u_global_decl(x: ullbc_ast::GlobalDecl) -> Seq<char>
    decreases x,
{
    "{\"def_id\":"@ + dec_u128(x.def_id.index as u128) + ",\"item_meta\":"@ + json_item_meta(x.item_meta) + ",\"is_local\":"@ + json_bool(x.is_local) + ",\"name\":"@ + json_name(x.name) + ",\"ty\":"@ + json_ty(x.ty) + ",\"body\":"@ + (match x.body { Option::Some(v) => ("["@ + json_block_data_list(v@) + "]"@), Option::None => "null"@ }) + "}"@
}

/// The serialization of unstructured global declarations, comma separated.
#[verifier::opaque]
pub open spec fn json_u_global_decl_list(s: Seq<ullbc_ast::GlobalDecl>) -> Seq<char>
    decreases s,
{
    if s.len() == 0 {
        Seq::empty()
    } else if s.len() == 1 {
        json_u_global_decl(s[0])
    } else {
        json_u_global_decl_list(s.drop_last()) + ","@ + json_u_global_decl(s.last())
    }
}

/// The serialization of type identifiers, comma separated.
#[verifier::opaque]
pub open spec fn json_type_decl_id_list(s: Seq<TypeDeclId>) -> Seq<char>
    decreases s,
{
    if s.len() == 0 {
        Seq::empty()
    } else if s.len() == 1 {
        dec_u128(s[0].index as u128)
    } else {
        json_type_decl_id_list(s.drop_last()) + ","@ + dec_u128(s.last().index as u128)
    }
}

/// The serialization of function identifiers, comma separated.
#[verifier::opaque]
pub open spec fn json_fun_decl_id_list(s: Seq<FunDeclId>) -> Seq<char>
    decreases s,
{
    if s.len() == 0 {
        Seq::empty()
    } else if s.len() == 1 {
        dec_u128(s[0].index as u128)
    } else {
        json_fun_decl_id_list(s.drop_last()) + ","@ + dec_u128(s.last().index as u128)
    }
}

/// The serialization of global identifiers, comma separated.
#[verifier::opaque]
pub open spec fn json_global_decl_id_list(s: Seq<GlobalDeclId>) -> Seq<char>
    decreases s,
{
    if s.len() == 0 {
        Seq::empty()
    } else if s.len() == 1 {
        dec_u128(s[0].index as u128)
    } else {
        json_global_decl_id_list(s.drop_last()) + ","@ + dec_u128(s.last().index as u128)
    }
}

/// The serialization of trait identifiers, comma separated.
#[verifier::opaque]
pub open spec fn json_trait_decl_id_list(s: Seq<TraitDeclId>) -> Seq<char>
    decreases s,
{
    if s.len() == 0 {
        Seq::empty()
    } else if s.len() == 1 {
        dec_u128(s[0].index as u128)
    } else {
        json_trait_decl_id_list(s.drop_last()) + ","@ + dec_u128(s.last().index as u128)
    }
}

/// The serialization of trait-implementation identifiers, comma separated.
#[verifier::opaque]
pub open spec fn json_trait_impl_id_list(s: Seq<TraitImplId>) -> Seq<char>
    decreases s,
{
    if s.len() == 0 {
        Seq::empty()
    } else if s.len() == 1 {
        dec_u128(s[0].index as u128)
    } else {
        json_trait_impl_id_list(s.drop_last()) + ","@ + dec_u128(s.last().index as u128)
    }
}

/// The serialization of a declaration group of one kind
#[verifier::opaque]
pub open spec fn json_type_group(x: GDeclarationGroup<TypeDeclId>) -> Seq<char>
    decreases x,
{
    match x {
        GDeclarationGroup::NonRec(a0) => "{\"NonRec\":"@ + dec_u128(a0.index as u128) + "}"@,
        GDeclarationGroup::Rec(a0) => "{\"Rec\":"@ + ("["@ + json_type_decl_id_list(a0@) + "]"@) + "}"@,
    }
}

/// The serialization of a declaration group of one kind
#[verifier::opaque]
pub open spec fn json_fun_group(x: GDeclarationGroup<FunDeclId>) -> Seq<char>
    decreases x,
{
    match x {
        GDeclarationGroup::NonRec(a0) => "{\"NonRec\":"@ + dec_u128(a0.index as u128) + "}"@,
        GDeclarationGroup::Rec(a0) => "{\"Rec\":"@ + ("["@ + json_fun_decl_id_list(a0@) + "]"@) + "}"@,
    }
}

/// The serialization of a declaration group of one kind
#[verifier::opaque]
pub open spec fn json_global_group(x: GDeclarationGroup<GlobalDeclId>) -> Seq<char>
    decreases x,
{
    match x {
        GDeclarationGroup::NonRec(a0) => "{\"NonRec\":"@ + dec_u128(a0.index as u128) + "}"@,
        GDeclarationGroup::Rec(a0) => "{\"Rec\":"@ + ("["@ + json_global_decl_id_list(a0@) + "]"@) + "}"@,
    }
}

/// The serialization of a declaration group of one kind
#[verifier::opaque]
pub open spec fn json_trait_decl_group(x: GDeclarationGroup<TraitDeclId>) -> Seq<char>
    decreases x,
{
    match x {
        GDeclarationGroup::NonRec(a0) => "{\"NonRec\":"@ + dec_u128(a0.index as u128) + "}"@,
        GDeclarationGroup::Rec(a0) => "{\"Rec\":"@ + ("["@ + json_trait_decl_id_list(a0@) + "]"@) + "}"@,
    }
}

/// The serialization of a declaration group of one kind
#[verifier::opaque]
pub open spec fn json_trait_impl_group(x: GDeclarationGroup<TraitImplId>) -> Seq<char>
    decreases x,
{
    match x {
        GDeclarationGroup::NonRec(a0) => "{\"NonRec\":"@ + dec_u128(a0.index as u128) + "}"@,
        GDeclarationGroup::Rec(a0) => "{\"Rec\":"@ + ("["@ + json_trait_impl_id_list(a0@) + "]"@) + "}"@,
    }
}

/// The serialization of a declaration group
#[verifier::opaque]
pub open spec fn json_declaration_group(x: DeclarationGroup) -> Seq<char>
    decreases x,
{
    match x {
        DeclarationGroup::Type(a0) => "{\"Type\":"@ + json_type_group(a0) + "}"@,
        DeclarationGroup::Fun(a0) => "{\"Fun\":"@ + json_fun_group(a0) + "}"@,
        DeclarationGroup::Global(a0) => "{\"Global\":"@ + json_global_group(a0) + "}"@,
        DeclarationGroup::TraitDecl(a0) => "{\"TraitDecl\":"@ + json_trait_decl_group(a0) + "}"@,
        DeclarationGroup::TraitImpl(a0) => "{\"TraitImpl\":"@ + json_trait_impl_group(a0) + "}"@,
    }
}

/// The serialization of the ordered declaration groups, comma separated.
#[verifier::opaque]
pub open spec fn json_declaration_group_list(s: Seq<DeclarationGroup>) -> Seq<char>
    decreases s,
{
    if s.len() == 0 {
        Seq::empty()
    } else if s.len() == 1 {
        json_declaration_group(s[0])
    } else {
        json_declaration_group_list(s.drop_last()) + ","@ + json_declaration_group(s.last())
    }
}

/// The serialization of one file-table entry
#[verifier::opaque]
pub open spec fn json_file_entry(x: (FileId, FileName)) -> Seq<char>
    decreases x,
{
    "["@ + dec_u128(x.0.index as u128) + ","@ + json_file_name(x.1) + "]"@
}

/// The serialization of the file table, comma separated.
#[verifier::opaque]
pub open spec fn json_file_entry_list(s: Seq<(FileId, FileName)>) -> Seq<char>
    decreases s,
{
    if s.len() == 0 {
        Seq::empty()
    } else if s.len() == 1 {
        json_file_entry(s[0])
    } else {
        json_file_entry_list(s.drop_last()) + ","@ + json_file_entry(s.last())
    }
}

/// Append the serialization of this value.
#[verifier::rlimit(100)]
#[verifier::spinoff_prover]
pub fn write_scalar_value(out: &mut String, x: &ScalarValue)
    ensures
        final(out)@ == old(out)@ + json_scalar_value(*x),
    decreases *x,
{
    proof {
        reveal(json_scalar_value);
    }
    match x {
        ScalarValue::Isize(a0) => {
            out.append("{\"Isize\":");
            proof { assert(out@ =~= old(out)@ + ("{\"Isize\":"@)); }
            write_i128(out, *a0 as i128);
            proof { assert(out@ =~= old(out)@ + ("{\"Isize\":"@ + dec_i128((*a0) as i128))); }
            out.append("}");
            proof { assert(out@ =~= old(out)@ + ("{\"Isize\":"@ + dec_i128((*a0) as i128) + "}"@)); }
        },
        ScalarValue::I8(a0) => {
            out.append("{\"I8\":");
            proof { assert(out@ =~= old(out)@ + ("{\"I8\":"@)); }
            write_i128(out, *a0 as i128);
            proof { assert(out@ =~= old(out)@ + ("{\"I8\":"@ + dec_i128((*a0) as i128))); }
            out.append("}");
            proof { assert(out@ =~= old(out)@ + ("{\"I8\":"@ + dec_i128((*a0) as i128) + "}"@)); }
        },
        ScalarValue::I16(a0) => {
            out.append("{\"I16\":");
            proof { assert(out@ =~= old(out)@ + ("{\"I16\":"@)); }
            write_i128(out, *a0 as i128);
            proof { assert(out@ =~= old(out)@ + ("{\"I16\":"@ + dec_i128((*a0) as i128))); }
            out.append("}");
            proof { assert(out@ =~= old(out)@ + ("{\"I16\":"@ + dec_i128((*a0) as i128) + "}"@)); }
        },
        ScalarValue::I32(a0) => {
            out.append("{\"I32\":");
            proof { assert(out@ =~= old(out)@ + ("{\"I32\":"@)); }
            write_i128(out, *a0 as i128);
            proof { assert(out@ =~= old(out)@ + ("{\"I32\":"@ + dec_i128((*a0) as i128))); }
            out.append("}");
            proof { assert(out@ =~= old(out)@ + ("{\"I32\":"@ + dec_i128((*a0) as i128) + "}"@)); }
        },
        ScalarValue::I64(a0) => {
            out.append("{\"I64\":");
            proof { assert(out@ =~= old(out)@ + ("{\"I64\":"@)); }
            write_i128(out, *a0 as i128);
            proof { assert(out@ =~= old(out)@ + ("{\"I64\":"@ + dec_i128((*a0) as i128))); }
            out.append("}");
            proof { assert(out@ =~= old(out)@ + ("{\"I64\":"@ + dec_i128((*a0) as i128) + "}"@)); }
        },
        ScalarValue::I128(a0) => {
            out.append("{\"I128\":");
            proof { assert(out@ =~= old(out)@ + ("{\"I128\":"@)); }
            write_i128(out, *a0 as i128);
            proof { assert(out@ =~= old(out)@ + ("{\"I128\":"@ + dec_i128((*a0) as i128))); }
            out.append("}");
            proof { assert(out@ =~= old(out)@ + ("{\"I128\":"@ + dec_i128((*a0) as i128) + "}"@)); }
        },
        ScalarValue::Usize(a0) => {
            out.append("{\"Usize\":");
            proof { assert(out@ =~= old(out)@ + ("{\"Usize\":"@)); }
            write_u128(out, *a0 as u128);
            proof { assert(out@ =~= old(out)@ + ("{\"Usize\":"@ + dec_u128((*a0) as u128))); }
            out.append("}");
            proof { assert(out@ =~= old(out)@ + ("{\"Usize\":"@ + dec_u128((*a0) as u128) + "}"@)); }
        },
        ScalarValue::U8(a0) => {
            out.append("{\"U8\":");
            proof { assert(out@ =~= old(out)@ + ("{\"U8\":"@)); }
            write_u128(out, *a0 as u128);
            proof { assert(out@ =~= old(out)@ + ("{\"U8\":"@ + dec_u128((*a0) as u128))); }
            out.append("}");
            proof { assert(out@ =~= old(out)@ + ("{\"U8\":"@ + dec_u128((*a0) as u128) + "}"@)); }
        },
        ScalarValue::U16(a0) => {
            out.append("{\"U16\":");
            proof { assert(out@ =~= old(out)@ + ("{\"U16\":"@)); }
            write_u128(out, *a0 as u128);
            proof { assert(out@ =~= old(out)@ + ("{\"U16\":"@ + dec_u128((*a0) as u128))); }
            out.append("}");
            proof { assert(out@ =~= old(out)@ + ("{\"U16\":"@ + dec_u128((*a0) as u128) + "}"@)); }
        },
        ScalarValue::U32(a0) => {
            out.append("{\"U32\":");
            proof { assert(out@ =~= old(out)@ + ("{\"U32\":"@)); }
            write_u128(out, *a0 as u128);
            proof { assert(out@ =~= old(out)@ + ("{\"U32\":"@ + dec_u128((*a0) as u128))); }
            out.append("}");
            proof { assert(out@ =~= old(out)@ + ("{\"U32\":"@ + dec_u128((*a0) as u128) + "}"@)); }
        },
        ScalarValue::U64(a0) => {
            out.append("{\"U64\":");
            proof { assert(out@ =~= old(out)@ + ("{\"U64\":"@)); }
            write_u128(out, *a0 as u128);
            proof { assert(out@ =~= old(out)@ + ("{\"U64\":"@ + dec_u128((*a0) as u128))); }
            out.append("}");
            proof { assert(out@ =~= old(out)@ + ("{\"U64\":"@ + dec_u128((*a0) as u128) + "}"@)); }
        },
        ScalarValue::U128(a0) => {
            out.append("{\"U128\":");
            proof { assert(out@ =~= old(out)@ + ("{\"U128\":"@)); }
            write_u128(out, *a0);
            proof { assert(out@ =~= old(out)@ + ("{\"U128\":"@ + dec_u128((*a0)))); }
            out.append("}");
            proof { assert(out@ =~= old(out)@ + ("{\"U128\":"@ + dec_u128((*a0)) + "}"@)); }
        },
    }
    proof {
        assert(out@ =~= old(out)@ + json_scalar_value(*x));
    }
}

/// Append the serialization of this value.
#[verifier::rlimit(100)]
#[verifier::spinoff_prover]
pub fn write_literal(out: &mut String, x: &Literal)
    ensures
        final(out)@ == old(out)@ + json_literal(*x),
    decreases *x,
{
    proof {
        reveal(json_literal);
    }
    match x {
        Literal::Scalar(a0) => {
            out.append("{\"Scalar\":");
            proof { assert(out@ =~= old(out)@ + ("{\"Scalar\":"@)); }
            write_scalar_value(out, a0);
            proof { assert(out@ =~= old(out)@ + ("{\"Scalar\":"@ + json_scalar_value((*a0)))); }
            out.append("}");
            proof { assert(out@ =~= old(out)@ + ("{\"Scalar\":"@ + json_scalar_value((*a0)) + "}"@)); }
        },
        Literal::Bool(a0) => {
            out.append("{\"Bool\":");
            proof { assert(out@ =~= old(out)@ + ("{\"Bool\":"@)); }
            write_bool(out, *a0);
            proof { assert(out@ =~= old(out)@ + ("{\"Bool\":"@ + json_bool((*a0)))); }
            out.append("}");
            proof { assert(out@ =~= old(out)@ + ("{\"Bool\":"@ + json_bool((*a0)) + "}"@)); }
        },
        Literal::Char(a0) => {
            out.append("{\"Char\":");
            proof { assert(out@ =~= old(out)@ + ("{\"Char\":"@)); }
            write_u128(out, *a0 as u32 as u128);
            proof { assert(out@ =~= old(out)@ + ("{\"Char\":"@ + dec_u128((*a0) as u32 as u128))); }
            out.append("}");
            proof { assert(out@ =~= old(out)@ + ("{\"Char\":"@ + dec_u128((*a0) as u32 as u128) + "}"@)); }
        },
    }
    proof {
        assert(out@ =~= old(out)@ + json_literal(*x));
    }
}

/// Append the serialization of this value.
#[verifier::rlimit(100)]
#[verifier::spinoff_prover]
pub fn write_loc(out: &mut String, x: &Loc)
    ensures
        final(out)@ == old(out)@ + json_loc(*x),
    decreases *x,
{
    proof {
        reveal(json_loc);
    }
    out.append("{\"line\":");
    proof { assert(out@ =~= old(out)@ + ("{\"line\":"@)); }
    write_usize(out, x.line);
    proof { assert(out@ =~= old(out)@ + ("{\"line\":"@ + dec_u128(x.line as u128))); }
    out.append(",\"col\":");
    proof { assert(out@ =~= old(out)@ + ("{\"line\":"@ + dec_u128(x.line as u128) + ",\"col\":"@)); }
    write_usize(out, x.col);
    proof { assert(out@ =~= old(out)@ + ("{\"line\":"@ + dec_u128(x.line as u128) + ",\"col\":"@ + dec_u128(x.col as u128))); }
    out.append("}");
    proof { assert(out@ =~= old(out)@ + ("{\"line\":"@ + dec_u128(x.line as u128) + ",\"col\":"@ + dec_u128(x.col as u128) + "}"@)); }
    proof {
        assert(out@ =~= old(out)@ + json_loc(*x));
    }
}

/// Append the serialization of this value.
#[verifier::rlimit(100)]
#[verifier::spinoff_prover]
pub fn write_span(out: &mut String, x: &Span)
    ensures
        final(out)@ == old(out)@ + json_span(*x),
    decreases *x,
{
    proof {
        reveal(json_span);
    }
    out.append("{\"file_id\":");
    proof { assert(out@ =~= old(out)@ + ("{\"file_id\":"@)); }
    write_usize(out, x.file_id.index);
    proof { assert(out@ =~= old(out)@ + ("{\"file_id\":"@ + dec_u128(x.file_id.index as u128))); }
    out.append(",\"beg\":");
    proof { assert(out@ =~= old(out)@ + ("{\"file_id\":"@ + dec_u128(x.file_id.index as u128) + ",\"beg\":"@)); }
    write_loc(out, &x.beg);
    proof { assert(out@ =~= old(out)@ + ("{\"file_id\":"@ + dec_u128(x.file_id.index as u128) + ",\"beg\":"@ + json_loc(x.beg))); }
    out.append(",\"end\":");
    proof { assert(out@ =~= old(out)@ + ("{\"file_id\":"@ + dec_u128(x.file_id.index as u128) + ",\"beg\":"@ + json_loc(x.beg) + ",\"end\":"@)); }
    write_loc(out, &x.end);
    proof { assert(out@ =~= old(out)@ + ("{\"file_id\":"@ + dec_u128(x.file_id.index as u128) + ",\"beg\":"@ + json_loc(x.beg) + ",\"end\":"@ + json_loc(x.end))); }
    out.append("}");
    proof { assert(out@ =~= old(out)@ + ("{\"file_id\":"@ + dec_u128(x.file_id.index as u128) + ",\"beg\":"@ + json_loc(x.beg) + ",\"end\":"@ + json_loc(x.end) + "}"@)); }
    proof {
        assert(out@ =~= old(out)@ + json_span(*x));
    }
}

/// Append the serialization of this value.
#[verifier::rlimit(100)]
#[verifier::spinoff_prover]
pub fn write_meta(out: &mut String, x: &Meta)
    ensures
        final(out)@ == old(out)@ + json_meta(*x),
    decreases *x,
{
    proof {
        reveal(json_meta);
    }
    out.append("{\"span\":");
    proof { assert(out@ =~= old(out)@ + ("{\"span\":"@)); }
    write_span(out, &x.span);
    proof { assert(out@ =~= old(out)@ + ("{\"span\":"@ + json_span(x.span))); }
    out.append(",\"generated_from_span\":");
    proof { assert(out@ =~= old(out)@ + ("{\"span\":"@ + json_span(x.span) + ",\"generated_from_span\":"@)); }
    match &x.generated_from_span { Option::Some(v) => { write_span(out, &(*v)); }, Option::None => { out.append("null"); }, }
    proof { assert(out@ =~= old(out)@ + ("{\"span\":"@ + json_span(x.span) + ",\"generated_from_span\":"@ + (match x.generated_from_span { Option::Some(v) => json_span(v), Option::None => "null"@ }))); }
    out.append("}");
    proof { assert(out@ =~= old(out)@ + ("{\"span\":"@ + json_span(x.span) + ",\"generated_from_span\":"@ + (match x.generated_from_span { Option::Some(v) => json_span(v), Option::None => "null"@ }) + "}"@)); }
    proof {
        assert(out@ =~= old(out)@ + json_meta(*x));
    }
}

/// Append the serialization of this value.
#[verifier::rlimit(100)]
#[verifier::spinoff_prover]
pub fn write_file_name(out: &mut String, x: &FileName)
    ensures
        final(out)@ == old(out)@ + json_file_name(*x),
    decreases *x,
{
    proof {
        reveal(json_file_name);
    }
    match x {
        FileName::Virtual(a0) => {
            out.append("{\"Virtual\":");
            proof { assert(out@ =~= old(out)@ + ("{\"Virtual\":"@)); }
            write_string(out, a0);
            proof { assert(out@ =~= old(out)@ + ("{\"Virtual\":"@ + json_string((*a0)@))); }
            out.append("}");
            proof { assert(out@ =~= old(out)@ + ("{\"Virtual\":"@ + json_string((*a0)@) + "}"@)); }
        },
        FileName::Local(a0) => {
            out.append("{\"Local\":");
            proof { assert(out@ =~= old(out)@ + ("{\"Local\":"@)); }
            write_string(out, a0);
            proof { assert(out@ =~= old(out)@ + ("{\"Local\":"@ + json_string((*a0)@))); }
            out.append("}");
            proof { assert(out@ =~= old(out)@ + ("{\"Local\":"@ + json_string((*a0)@) + "}"@)); }
        },
        FileName::NotReal(a0) => {
            out.append("{\"NotReal\":");
            proof { assert(out@ =~= old(out)@ + ("{\"NotReal\":"@)); }
            write_string(out, a0);
            proof { assert(out@ =~= old(out)@ + ("{\"NotReal\":"@ + json_string((*a0)@))); }
            out.append("}");
            proof { assert(out@ =~= old(out)@ + ("{\"NotReal\":"@ + json_string((*a0)@) + "}"@)); }
        },
    }
    proof {
        assert(out@ =~= old(out)@ + json_file_name(*x));
    }
}

/// Append the serialization of this list, as an array.
#[verifier::rlimit(100)]
#[verifier::spinoff_prover]
#[verifier::loop_isolation(false)]
pub fn write_string_array(out: &mut String, v: &Vec<String>)
    ensures
        final(out)@ == old(out)@ + "["@ + json_string_list(v@) + "]"@,
    decreases *v,
{
    proof {
        reveal_with_fuel(json_string_list, 2);
    }
    out.append("[");
    let mut i: usize = 0;
    while i < v.len()
        invariant
            i <= v@.len(),
            out@ == old(out)@ + "["@ + json_string_list(v@.take(i as int)),
        decreases v@.len() - i,
    {
        if i > 0 {
            out.append(",");
        }
        write_string(out, &v[i]);
        proof {
            assert(v@.take(i + 1 as int).drop_last() =~= v@.take(i as int));
            assert(v@.take(i + 1 as int).last() == v@[i as int]);
            assert(out@ =~= old(out)@ + "["@ + json_string_list(v@.take(i + 1 as int)));
        }
        i += 1;
    }
    proof {
        assert(v@.take(v@.len() as int) =~= v@);
    }
    out.append("]");
    proof {
        assert(out@ =~= old(out)@ + "["@ + json_string_list(v@) + "]"@);
    }
}

/// Append the serialization of this value.
#[verifier::rlimit(100)]
#[verifier::spinoff_prover]
pub fn write_item_meta(out: &mut String, x: &ItemMeta)
    ensures
        final(out)@ == old(out)@ + json_item_meta(*x),
    decreases *x,
{
    proof {
        reveal(json_item_meta);
    }
    out.append("{\"meta\":");
    proof { assert(out@ =~= old(out)@ + ("{\"meta\":"@)); }
    write_meta(out, &x.meta);
    proof { assert(out@ =~= old(out)@ + ("{\"meta\":"@ + json_meta(x.meta))); }
    out.append(",\"attributes\":");
    proof { assert(out@ =~= old(out)@ + ("{\"meta\":"@ + json_meta(x.meta) + ",\"attributes\":"@)); }
    write_string_array(out, &x.attributes);
    proof { assert(out@ =~= old(out)@ + ("{\"meta\":"@ + json_meta(x.meta) + ",\"attributes\":"@ + ("["@ + json_string_list(x.attributes@) + "]"@))); }
    out.append("}");
    proof { assert(out@ =~= old(out)@ + ("{\"meta\":"@ + json_meta(x.meta) + ",\"attributes\":"@ + ("["@ + json_string_list(x.attributes@) + "]"@) + "}"@)); }
    proof {
        assert(out@ =~= old(out)@ + json_item_meta(*x));
    }
}

/// Append the serialization of this value.
#[verifier::rlimit(100)]
#[verifier::spinoff_prover]
pub fn write_integer_ty(out: &mut String, x: &IntegerTy)
    ensures
        final(out)@ == old(out)@ + json_integer_ty(*x),
    decreases *x,
{
    proof {
        reveal(json_integer_ty);
    }
    match x {
        IntegerTy::Isize => { out.append("\"Isize\""); },
        IntegerTy::I8 => { out.append("\"I8\""); },
        IntegerTy::I16 => { out.append("\"I16\""); },
        IntegerTy::I32 => { out.append("\"I32\""); },
        IntegerTy::I64 => { out.append("\"I64\""); },
        IntegerTy::I128 => { out.append("\"I128\""); },
        IntegerTy::Usize => { out.append("\"Usize\""); },
        IntegerTy::U8 => { out.append("\"U8\""); },
        IntegerTy::U16 => { out.append("\"U16\""); },
        IntegerTy::U32 => { out.append("\"U32\""); },
        IntegerTy::U64 => { out.append("\"U64\""); },
        IntegerTy::U128 => { out.append("\"U128\""); },
    }
    proof {
        assert(out@ =~= old(out)@ + json_integer_ty(*x));
    }
}

/// Append the serialization of this value.
#[verifier::rlimit(100)]
#[verifier::spinoff_prover]
pub fn write_ref_kind(out: &mut String, x: &RefKind)
    ensures
        final(out)@ == old(out)@ + json_ref_kind(*x),
    decreases *x,
{
    proof {
        reveal(json_ref_kind);
    }
    match x {
        RefKind::Mut => { out.append("\"Mut\""); },
        RefKind::Shared => { out.append("\"Shared\""); },
    }
    proof {
        assert(out@ =~= old(out)@ + json_ref_kind(*x));
    }
}

/// Append the serialization of this value.
#[verifier::rlimit(100)]
#[verifier::spinoff_prover]
pub fn write_assumed_ty(out: &mut String, x: &AssumedTy)
    ensures
        final(out)@ == old(out)@ + json_assumed_ty(*x),
    decreases *x,
{
    proof {
        reveal(json_assumed_ty);
    }
    match x {
        AssumedTy::Box => { out.append("\"Box\""); },
        AssumedTy::PtrUnique => { out.append("\"PtrUnique\""); },
        AssumedTy::PtrNonNull => { out.append("\"PtrNonNull\""); },
        AssumedTy::Array => { out.append("\"Array\""); },
        AssumedTy::Slice => { out.append("\"Slice\""); },
        AssumedTy::Str => { out.append("\"Str\""); },
    }
    proof {
        assert(out@ =~= old(out)@ + json_assumed_ty(*x));
    }
}

/// Append the serialization of this value.
#[verifier::rlimit(100)]
#[verifier::spinoff_prover]
pub fn write_type_id(out: &mut String, x: &TypeId)
    ensures
        final(out)@ == old(out)@ + json_type_id(*x),
    decreases *x,
{
    proof {
        reveal(json_type_id);
    }
    match x {
        TypeId::Adt(a0) => {
            out.append("{\"Adt\":");
            proof { assert(out@ =~= old(out)@ + ("{\"Adt\":"@)); }
            write_usize(out, a0.index);
            proof { assert(out@ =~= old(out)@ + ("{\"Adt\":"@ + dec_u128((*a0).index as u128))); }
            out.append("}");
            proof { assert(out@ =~= old(out)@ + ("{\"Adt\":"@ + dec_u128((*a0).index as u128) + "}"@)); }
        },
        TypeId::Tuple => { out.append("\"Tuple\""); },
        TypeId::Assumed(a0) => {
            out.append("{\"Assumed\":");
            proof { assert(out@ =~= old(out)@ + ("{\"Assumed\":"@)); }
            write_assumed_ty(out, a0);
            proof { assert(out@ =~= old(out)@ + ("{\"Assumed\":"@ + json_assumed_ty((*a0)))); }
            out.append("}");
            proof { assert(out@ =~= old(out)@ + ("{\"Assumed\":"@ + json_assumed_ty((*a0)) + "}"@)); }
        },
    }
    proof {
        assert(out@ =~= old(out)@ + json_type_id(*x));
    }
}

/// Append the serialization of this value.
#[verifier::rlimit(100)]
#[verifier::spinoff_prover]
pub fn write_literal_ty(out: &mut String, x: &LiteralTy)
    ensures
        final(out)@ == old(out)@ + json_literal_ty(*x),
    decreases *x,
{
    proof {
        reveal(json_literal_ty);
    }
    match x {
        LiteralTy::Integer(a0) => {
            out.append("{\"Integer\":");
            proof { assert(out@ =~= old(out)@ + ("{\"Integer\":"@)); }
            write_integer_ty(out, a0);
            proof { assert(out@ =~= old(out)@ + ("{\"Integer\":"@ + json_integer_ty((*a0)))); }
            out.append("}");
            proof { assert(out@ =~= old(out)@ + ("{\"Integer\":"@ + json_integer_ty((*a0)) + "}"@)); }
        },
        LiteralTy::Bool => { out.append("\"Bool\""); },
        LiteralTy::Char => { out.append("\"Char\""); },
    }
    proof {
        assert(out@ =~= old(out)@ + json_literal_ty(*x));
    }
}

/// Append the serialization of this value.
#[verifier::rlimit(100)]
#[verifier::spinoff_prover]
pub fn write_de_bruijn_id(out: &mut String, x: &DeBruijnId)
    ensures
        final(out)@ == old(out)@ + json_de_bruijn_id(*x),
    decreases *x,
{
    proof {
        reveal(json_de_bruijn_id);
    }
    write_usize(out, x.index);
    proof {
        assert(out@ =~= old(out)@ + json_de_bruijn_id(*x));
    }
}

/// Append the serialization of this value.
#[verifier::rlimit(100)]
#[verifier::spinoff_prover]
pub fn write_region(out: &mut String, x: &Region)
    ensures
        final(out)@ == old(out)@ + json_region(*x),
    decreases *x,
{
    proof {
        reveal(json_region);
    }
    match x {
        Region::Static => { out.append("\"Static\""); },
        Region::BVar(a0, a1) => {
            out.append("{\"BVar\":");
            proof { assert(out@ =~= old(out)@ + ("{\"BVar\":"@)); }
            out.append("[");
            proof { assert(out@ =~= old(out)@ + ("{\"BVar\":"@ + "["@)); }
            write_de_bruijn_id(out, a0);
            proof { assert(out@ =~= old(out)@ + ("{\"BVar\":"@ + "["@ + json_de_bruijn_id((*a0)))); }
            out.append(",");
            proof { assert(out@ =~= old(out)@ + ("{\"BVar\":"@ + "["@ + json_de_bruijn_id((*a0)) + ","@)); }
            write_usize(out, a1.index);
            proof { assert(out@ =~= old(out)@ + ("{\"BVar\":"@ + "["@ + json_de_bruijn_id((*a0)) + ","@ + dec_u128((*a1).index as u128))); }
            out.append("]");
            proof { assert(out@ =~= old(out)@ + ("{\"BVar\":"@ + "["@ + json_de_bruijn_id((*a0)) + ","@ + dec_u128((*a1).index as u128) + "]"@)); }
            out.append("}");
            proof { assert(out@ =~= old(out)@ + ("{\"BVar\":"@ + "["@ + json_de_bruijn_id((*a0)) + ","@ + dec_u128((*a1).index as u128) + "]"@ + "}"@)); }
        },
        Region::Erased => { out.append("\"Erased\""); },
        Region::Unknown => { out.append("\"Unknown\""); },
    }
    proof {
        assert(out@ =~= old(out)@ + json_region(*x));
    }
}

/// Append the serialization of this value.
#[verifier::rlimit(100)]
#[verifier::spinoff_prover]
pub fn write_const_generic(out: &mut String, x: &ConstGeneric)
    ensures
        final(out)@ == old(out)@ + json_const_generic(*x),
    decreases *x,
{
    proof {
        reveal(json_const_generic);
    }
    match x {
        ConstGeneric::Global(a0) => {
            out.append("{\"Global\":");
            proof { assert(out@ =~= old(out)@ + ("{\"Global\":"@)); }
            write_usize(out, a0.index);
            proof { assert(out@ =~= old(out)@ + ("{\"Global\":"@ + dec_u128((*a0).index as u128))); }
            out.append("}");
            proof { assert(out@ =~= old(out)@ + ("{\"Global\":"@ + dec_u128((*a0).index as u128) + "}"@)); }
        },
        ConstGeneric::Var(a0) => {
            out.append("{\"Var\":");
            proof { assert(out@ =~= old(out)@ + ("{\"Var\":"@)); }
            write_usize(out, a0.index);
            proof { assert(out@ =~= old(out)@ + ("{\"Var\":"@ + dec_u128((*a0).index as u128))); }
            out.append("}");
            proof { assert(out@ =~= old(out)@ + ("{\"Var\":"@ + dec_u128((*a0).index as u128) + "}"@)); }
        },
        ConstGeneric::Value(a0) => {
            out.append("{\"Value\":");
            proof { assert(out@ =~= old(out)@ + ("{\"Value\":"@)); }
            write_literal(out, a0);
            proof { assert(out@ =~= old(out)@ + ("{\"Value\":"@ + json_literal((*a0)))); }
            out.append("}");
            proof { assert(out@ =~= old(out)@ + ("{\"Value\":"@ + json_literal((*a0)) + "}"@)); }
        },
    }
    proof {
        assert(out@ =~= old(out)@ + json_const_generic(*x));
    }
}

/// Append the serialization of this value.
#[verifier::rlimit(100)]
#[verifier::spinoff_prover]
pub fn write_type_var(out: &mut String, x: &TypeVar)
    ensures
        final(out)@ == old(out)@ + json_type_var(*x),
    decreases *x,
{
    proof {
        reveal(json_type_var);
    }
    out.append("{\"index\":");
    proof { assert(out@ =~= old(out)@ + ("{\"index\":"@)); }
    write_usize(out, x.index.index);
    proof { assert(out@ =~= old(out)@ + ("{\"index\":"@ + dec_u128(x.index.index as u128))); }
    out.append(",\"name\":");
    proof { assert(out@ =~= old(out)@ + ("{\"index\":"@ + dec_u128(x.index.index as u128) + ",\"name\":"@)); }
    write_string(out, &x.name);
    proof { assert(out@ =~= old(out)@ + ("{\"index\":"@ + dec_u128(x.index.index as u128) + ",\"name\":"@ + json_string(x.name@))); }
    out.append("}");
    proof { assert(out@ =~= old(out)@ + ("{\"index\":"@ + dec_u128(x.index.index as u128) + ",\"name\":"@ + json_string(x.name@) + "}"@)); }
    proof {
        assert(out@ =~= old(out)@ + json_type_var(*x));
    }
}

/// Append the serialization of this value.
#[verifier::rlimit(100)]
#[verifier::spinoff_prover]
pub fn write_region_var(out: &mut String, x: &RegionVar)
    ensures
        final(out)@ == old(out)@ + json_region_var(*x),
    decreases *x,
{
    proof {
        reveal(json_region_var);
    }
    out.append("{\"index\":");
    proof { assert(out@ =~= old(out)@ + ("{\"index\":"@)); }
    write_usize(out, x.index.index);
    proof { assert(out@ =~= old(out)@ + ("{\"index\":"@ + dec_u128(x.index.index as u128))); }
    out.append(",\"name\":");
    proof { assert(out@ =~= old(out)@ + ("{\"index\":"@ + dec_u128(x.index.index as u128) + ",\"name\":"@)); }
    match &x.name { Option::Some(v) => { write_string(out, &(*v)); }, Option::None => { out.append("null"); }, }
    proof { assert(out@ =~= old(out)@ + ("{\"index\":"@ + dec_u128(x.index.index as u128) + ",\"name\":"@ + (match x.name { Option::Some(v) => json_string(v@), Option::None => "null"@ }))); }
    out.append("}");
    proof { assert(out@ =~= old(out)@ + ("{\"index\":"@ + dec_u128(x.index.index as u128) + ",\"name\":"@ + (match x.name { Option::Some(v) => json_string(v@), Option::None => "null"@ }) + "}"@)); }
    proof {
        assert(out@ =~= old(out)@ + json_region_var(*x));
    }
}

/// Append the serialization of this value.
#[verifier::rlimit(100)]
#[verifier::spinoff_prover]
pub fn write_const_generic_var(out: &mut String, x: &ConstGenericVar)
    ensures
        final(out)@ == old(out)@ + json_const_generic_var(*x),
    decreases *x,
{
    proof {
        reveal(json_const_generic_var);
    }
    out.append("{\"index\":");
    proof { assert(out@ =~= old(out)@ + ("{\"index\":"@)); }
    write_usize(out, x.index.index);
    proof { assert(out@ =~= old(out)@ + ("{\"index\":"@ + dec_u128(x.index.index as u128))); }
    out.append(",\"name\":");
    proof { assert(out@ =~= old(out)@ + ("{\"index\":"@ + dec_u128(x.index.index as u128) + ",\"name\":"@)); }
    write_string(out, &x.name);
    proof { assert(out@ =~= old(out)@ + ("{\"index\":"@ + dec_u128(x.index.index as u128) + ",\"name\":"@ + json_string(x.name@))); }
    out.append(",\"ty\":");
    proof { assert(out@ =~= old(out)@ + ("{\"index\":"@ + dec_u128(x.index.index as u128) + ",\"name\":"@ + json_string(x.name@) + ",\"ty\":"@)); }
    write_literal_ty(out, &x.ty);
    proof { assert(out@ =~= old(out)@ + ("{\"index\":"@ + dec_u128(x.index.index as u128) + ",\"name\":"@ + json_string(x.name@) + ",\"ty\":"@ + json_literal_ty(x.ty))); }
    out.append("}");
    proof { assert(out@ =~= old(out)@ + ("{\"index\":"@ + dec_u128(x.index.index as u128) + ",\"name\":"@ + json_string(x.name@) + ",\"ty\":"@ + json_literal_ty(x.ty) + "}"@)); }
    proof {
        assert(out@ =~= old(out)@ + json_const_generic_var(*x));
    }
}

/// Append the serialization of this value.
#[verifier::rlimit(100)]
#[verifier::spinoff_prover]
pub fn write_trait_item_name(out: &mut String, x: &TraitItemName)
    ensures
        final(out)@ == old(out)@ + json_trait_item_name(*x),
    decreases *x,
{
    proof {
        reveal(json_trait_item_name);
    }
    write_string(out, &x.0);
    proof {
        assert(out@ =~= old(out)@ + json_trait_item_name(*x));
    }
}

/// Append the serialization of this list, as an array.
#[verifier::rlimit(100)]
#[verifier::spinoff_prover]
#[verifier::loop_isolation(false)]
pub fn write_region_array(out: &mut String, v: &Vec<Region>)
    ensures
        final(out)@ == old(out)@ + "["@ + json_region_list(v@) + "]"@,
    decreases *v,
{
    proof {
        reveal_with_fuel(json_region_list, 2);
    }
    out.append("[");
    let mut i: usize = 0;
    while i < v.len()
        invariant
            i <= v@.len(),
            out@ == old(out)@ + "["@ + json_region_list(v@.take(i as int)),
        decreases v@.len() - i,
    {
        if i > 0 {
            out.append(",");
        }
        write_region(out, &v[i]);
        proof {
            assert(v@.take(i + 1 as int).drop_last() =~= v@.take(i as int));
            assert(v@.take(i + 1 as int).last() == v@[i as int]);
            assert(out@ =~= old(out)@ + "["@ + json_region_list(v@.take(i + 1 as int)));
        }
        i += 1;
    }
    proof {
        assert(v@.take(v@.len() as int) =~= v@);
    }
    out.append("]");
    proof {
        assert(out@ =~= old(out)@ + "["@ + json_region_list(v@) + "]"@);
    }
}

/// Append the serialization of this list, as an array.
#[verifier::rlimit(100)]
#[verifier::spinoff_prover]
#[verifier::loop_isolation(false)]
pub fn write_ty_array(out: &mut String, v: &Vec<Ty>)
    ensures
        final(out)@ == old(out)@ + "["@ + json_ty_list(v@) + "]"@,
    decreases *v,
{
    proof {
        reveal_with_fuel(json_ty_list, 2);
    }
    out.append("[");
    let mut i: usize = 0;
    while i < v.len()
        invariant
            i <= v@.len(),
            out@ == old(out)@ + "["@ + json_ty_list(v@.take(i as int)),
        decreases v@.len() - i,
    {
        if i > 0 {
            out.append(",");
        }
        write_ty(out, &v[i]);
        proof {
            assert(v@.take(i + 1 as int).drop_last() =~= v@.take(i as int));
            assert(v@.take(i + 1 as int).last() == v@[i as int]);
            assert(out@ =~= old(out)@ + "["@ + json_ty_list(v@.take(i + 1 as int)));
        }
        i += 1;
    }
    proof {
        assert(v@.take(v@.len() as int) =~= v@);
    }
    out.append("]");
    proof {
        assert(out@ =~= old(out)@ + "["@ + json_ty_list(v@) + "]"@);
    }
}

/// Append the serialization of this list, as an array.
#[verifier::rlimit(100)]
#[verifier::spinoff_prover]
#[verifier::loop_isolation(false)]
pub fn write_const_generic_array(out: &mut String, v: &Vec<ConstGeneric>)
    ensures
        final(out)@ == old(out)@ + "["@ + json_const_generic_list(v@) + "]"@,
    decreases *v,
{
    proof {
        reveal_with_fuel(json_const_generic_list, 2);
    }
    out.append("[");
    let mut i: usize = 0;
    while i < v.len()
        invariant
            i <= v@.len(),
            out@ == old(out)@ + "["@ + json_const_generic_list(v@.take(i as int)),
        decreases v@.len() - i,
    {
        if i > 0 {
            out.append(",");
        }
        write_const_generic(out, &v[i]);
        proof {
            assert(v@.take(i + 1 as int).drop_last() =~= v@.take(i as int));
            assert(v@.take(i + 1 as int).last() == v@[i as int]);
            assert(out@ =~= old(out)@ + "["@ + json_const_generic_list(v@.take(i + 1 as int)));
        }
        i += 1;
    }
    proof {
        assert(v@.take(v@.len() as int) =~= v@);
    }
    out.append("]");
    proof {
        assert(out@ =~= old(out)@ + "["@ + json_const_generic_list(v@) + "]"@);
    }
}

/// Append the serialization of this list, as an array.
#[verifier::rlimit(100)]
#[verifier::spinoff_prover]
#[verifier::loop_isolation(false)]
pub fn write_trait_ref_array(out: &mut String, v: &Vec<TraitRef>)
    ensures
        final(out)@ == old(out)@ + "["@ + json_trait_ref_list(v@) + "]"@,
    decreases *v,
{
    proof {
        reveal_with_fuel(json_trait_ref_list, 2);
    }
    out.append("[");
    let mut i: usize = 0;
    while i < v.len()
        invariant
            i <= v@.len(),
            out@ == old(out)@ + "["@ + json_trait_ref_list(v@.take(i as int)),
        decreases v@.len() - i,
    {
        if i > 0 {
            out.append(",");
        }
        write_trait_ref(out, &v[i]);
        proof {
            assert(v@.take(i + 1 as int).drop_last() =~= v@.take(i as int));
            assert(v@.take(i + 1 as int).last() == v@[i as int]);
            assert(out@ =~= old(out)@ + "["@ + json_trait_ref_list(v@.take(i + 1 as int)));
        }
        i += 1;
    }
    proof {
        assert(v@.take(v@.len() as int) =~= v@);
    }
    out.append("]");
    proof {
        assert(out@ =~= old(out)@ + "["@ + json_trait_ref_list(v@) + "]"@);
    }
}

/// Append the serialization of this value.
#[verifier::rlimit(100)]
#[verifier::spinoff_prover]
pub fn write_generic_args(out: &mut String, x: &GenericArgs)
    ensures
        final(out)@ == old(out)@ + json_generic_args(*x),
    decreases *x,
{
    proof {
        reveal(json_generic_args);
    }
    out.append("{\"regions\":");
    proof { assert(out@ =~= old(out)@ + ("{\"regions\":"@)); }
    write_region_array(out, &x.regions);
    proof { assert(out@ =~= old(out)@ + ("{\"regions\":"@ + ("["@ + json_region_list(x.regions@) + "]"@))); }
    out.append(",\"types\":");
    proof { assert(out@ =~= old(out)@ + ("{\"regions\":"@ + ("["@ + json_region_list(x.regions@) + "]"@) + ",\"types\":"@)); }
    write_ty_array(out, &x.types);
    proof { assert(out@ =~= old(out)@ + ("{\"regions\":"@ + ("["@ + json_region_list(x.regions@) + "]"@) + ",\"types\":"@ + ("["@ + json_ty_list(x.types@) + "]"@))); }
    out.append(",\"const_generics\":");
    proof { assert(out@ =~= old(out)@ + ("{\"regions\":"@ + ("["@ + json_region_list(x.regions@) + "]"@) + ",\"types\":"@ + ("["@ + json_ty_list(x.types@) + "]"@) + ",\"const_generics\":"@)); }
    write_const_generic_array(out, &x.const_generics);
    proof { assert(out@ =~= old(out)@ + ("{\"regions\":"@ + ("["@ + json_region_list(x.regions@) + "]"@) + ",\"types\":"@ + ("["@ + json_ty_list(x.types@) + "]"@) + ",\"const_generics\":"@ + ("["@ + json_const_generic_list(x.const_generics@) + "]"@))); }
    out.append(",\"trait_refs\":");
    proof { assert(out@ =~= old(out)@ + ("{\"regions\":"@ + ("["@ + json_region_list(x.regions@) + "]"@) + ",\"types\":"@ + ("["@ + json_ty_list(x.types@) + "]"@) + ",\"const_generics\":"@ + ("["@ + json_const_generic_list(x.const_generics@) + "]"@) + ",\"trait_refs\":"@)); }
    write_trait_ref_array(out, &x.trait_refs);
    proof { assert(out@ =~= old(out)@ + ("{\"regions\":"@ + ("["@ + json_region_list(x.regions@) + "]"@) + ",\"types\":"@ + ("["@ + json_ty_list(x.types@) + "]"@) + ",\"const_generics\":"@ + ("["@ + json_const_generic_list(x.const_generics@) + "]"@) + ",\"trait_refs\":"@ + ("["@ + json_trait_ref_list(x.trait_refs@) + "]"@))); }
    out.append("}");
    proof { assert(out@ =~= old(out)@ + ("{\"regions\":"@ + ("["@ + json_region_list(x.regions@) + "]"@) + ",\"types\":"@ + ("["@ + json_ty_list(x.types@) + "]"@) + ",\"const_generics\":"@ + ("["@ + json_const_generic_list(x.const_generics@) + "]"@) + ",\"trait_refs\":"@ + ("["@ + json_trait_ref_list(x.trait_refs@) + "]"@) + "}"@)); }
    proof {
        assert(out@ =~= old(out)@ + json_generic_args(*x));
    }
}

/// Append the serialization of this value.
#[verifier::rlimit(100)]
#[verifier::spinoff_prover]
pub fn write_trait_instance_id(out: &mut String, x: &TraitInstanceId)
    ensures
        final(out)@ == old(out)@ + json_trait_instance_id(*x),
    decreases *x,
{
    proof {
        reveal(json_trait_instance_id);
    }
    match x {
        TraitInstanceId::TraitImpl(a0) => {
            out.append("{\"TraitImpl\":");
            proof { assert(out@ =~= old(out)@ + ("{\"TraitImpl\":"@)); }
            write_usize(out, a0.index);
            proof { assert(out@ =~= old(out)@ + ("{\"TraitImpl\":"@ + dec_u128((*a0).index as u128))); }
            out.append("}");
            proof { assert(out@ =~= old(out)@ + ("{\"TraitImpl\":"@ + dec_u128((*a0).index as u128) + "}"@)); }
        },
        TraitInstanceId::BuiltinOrAuto(a0) => {
            out.append("{\"BuiltinOrAuto\":");
            proof { assert(out@ =~= old(out)@ + ("{\"BuiltinOrAuto\":"@)); }
            write_usize(out, a0.index);
            proof { assert(out@ =~= old(out)@ + ("{\"BuiltinOrAuto\":"@ + dec_u128((*a0).index as u128))); }
            out.append("}");
            proof { assert(out@ =~= old(out)@ + ("{\"BuiltinOrAuto\":"@ + dec_u128((*a0).index as u128) + "}"@)); }
        },
        TraitInstanceId::Clause(a0) => {
            out.append("{\"Clause\":");
            proof { assert(out@ =~= old(out)@ + ("{\"Clause\":"@)); }
            write_usize(out, a0.index);
            proof { assert(out@ =~= old(out)@ + ("{\"Clause\":"@ + dec_u128((*a0).index as u128))); }
            out.append("}");
            proof { assert(out@ =~= old(out)@ + ("{\"Clause\":"@ + dec_u128((*a0).index as u128) + "}"@)); }
        },
        TraitInstanceId::ParentClause(a0, a1, a2) => {
            out.append("{\"ParentClause\":");
            proof { assert(out@ =~= old(out)@ + ("{\"ParentClause\":"@)); }
            out.append("[");
            proof { assert(out@ =~= old(out)@ + ("{\"ParentClause\":"@ + "["@)); }
            write_trait_instance_id(out, &(**a0));
            proof { assert(out@ =~= old(out)@ + ("{\"ParentClause\":"@ + "["@ + json_trait_instance_id((*(*a0))))); }
            out.append(",");
            proof { assert(out@ =~= old(out)@ + ("{\"ParentClause\":"@ + "["@ + json_trait_instance_id((*(*a0))) + ","@)); }
            write_usize(out, a1.index);
            proof { assert(out@ =~= old(out)@ + ("{\"ParentClause\":"@ + "["@ + json_trait_instance_id((*(*a0))) + ","@ + dec_u128((*a1).index as u128))); }
            out.append(",");
            proof { assert(out@ =~= old(out)@ + ("{\"ParentClause\":"@ + "["@ + json_trait_instance_id((*(*a0))) + ","@ + dec_u128((*a1).index as u128) + ","@)); }
            write_usize(out, a2.index);
            proof { assert(out@ =~= old(out)@ + ("{\"ParentClause\":"@ + "["@ + json_trait_instance_id((*(*a0))) + ","@ + dec_u128((*a1).index as u128) + ","@ + dec_u128((*a2).index as u128))); }
            out.append("]");
            proof { assert(out@ =~= old(out)@ + ("{\"ParentClause\":"@ + "["@ + json_trait_instance_id((*(*a0))) + ","@ + dec_u128((*a1).index as u128) + ","@ + dec_u128((*a2).index as u128) + "]"@)); }
            out.append("}");
            proof { assert(out@ =~= old(out)@ + ("{\"ParentClause\":"@ + "["@ + json_trait_instance_id((*(*a0))) + ","@ + dec_u128((*a1).index as u128) + ","@ + dec_u128((*a2).index as u128) + "]"@ + "}"@)); }
        },
        TraitInstanceId::ItemClause(a0, a1, a2, a3) => {
            out.append("{\"ItemClause\":");
            proof { assert(out@ =~= old(out)@ + ("{\"ItemClause\":"@)); }
            out.append("[");
            proof { assert(out@ =~= old(out)@ + ("{\"ItemClause\":"@ + "["@)); }
            write_trait_instance_id(out, &(**a0));
            proof { assert(out@ =~= old(out)@ + ("{\"ItemClause\":"@ + "["@ + json_trait_instance_id((*(*a0))))); }
            out.append(",");
            proof { assert(out@ =~= old(out)@ + ("{\"ItemClause\":"@ + "["@ + json_trait_instance_id((*(*a0))) + ","@)); }
            write_usize(out, a1.index);
            proof { assert(out@ =~= old(out)@ + ("{\"ItemClause\":"@ + "["@ + json_trait_instance_id((*(*a0))) + ","@ + dec_u128((*a1).index as u128))); }
            out.append(",");
            proof { assert(out@ =~= old(out)@ + ("{\"ItemClause\":"@ + "["@ + json_trait_instance_id((*(*a0))) + ","@ + dec_u128((*a1).index as u128) + ","@)); }
            write_trait_item_name(out, a2);
            proof { assert(out@ =~= old(out)@ + ("{\"ItemClause\":"@ + "["@ + json_trait_instance_id((*(*a0))) + ","@ + dec_u128((*a1).index as u128) + ","@ + json_trait_item_name((*a2)))); }
            out.append(",");
            proof { assert(out@ =~= old(out)@ + ("{\"ItemClause\":"@ + "["@ + json_trait_instance_id((*(*a0))) + ","@ + dec_u128((*a1).index as u128) + ","@ + json_trait_item_name((*a2)) + ","@)); }
            write_usize(out, a3.index);
            proof { assert(out@ =~= old(out)@ + ("{\"ItemClause\":"@ + "["@ + json_trait_instance_id((*(*a0))) + ","@ + dec_u128((*a1).index as u128) + ","@ + json_trait_item_name((*a2)) + ","@ + dec_u128((*a3).index as u128))); }
            out.append("]");
            proof { assert(out@ =~= old(out)@ + ("{\"ItemClause\":"@ + "["@ + json_trait_instance_id((*(*a0))) + ","@ + dec_u128((*a1).index as u128) + ","@ + json_trait_item_name((*a2)) + ","@ + dec_u128((*a3).index as u128) + "]"@)); }
            out.append("}");
            proof { assert(out@ =~= old(out)@ + ("{\"ItemClause\":"@ + "["@ + json_trait_instance_id((*(*a0))) + ","@ + dec_u128((*a1).index as u128) + ","@ + json_trait_item_name((*a2)) + ","@ + dec_u128((*a3).index as u128) + "]"@ + "}"@)); }
        },
        TraitInstanceId::FnPointer(a0) => {
            out.append("{\"FnPointer\":");
            proof { assert(out@ =~= old(out)@ + ("{\"FnPointer\":"@)); }
            write_ty(out, &(**a0));
            proof { assert(out@ =~= old(out)@ + ("{\"FnPointer\":"@ + json_ty((*(*a0))))); }
            out.append("}");
            proof { assert(out@ =~= old(out)@ + ("{\"FnPointer\":"@ + json_ty((*(*a0))) + "}"@)); }
        },
        TraitInstanceId::Closure(a0, a1) => {
            out.append("{\"Closure\":");
            proof { assert(out@ =~= old(out)@ + ("{\"Closure\":"@)); }
            out.append("[");
            proof { assert(out@ =~= old(out)@ + ("{\"Closure\":"@ + "["@)); }
            write_usize(out, a0.index);
            proof { assert(out@ =~= old(out)@ + ("{\"Closure\":"@ + "["@ + dec_u128((*a0).index as u128))); }
            out.append(",");
            proof { assert(out@ =~= old(out)@ + ("{\"Closure\":"@ + "["@ + dec_u128((*a0).index as u128) + ","@)); }
            write_generic_args(out, a1);
            proof { assert(out@ =~= old(out)@ + ("{\"Closure\":"@ + "["@ + dec_u128((*a0).index as u128) + ","@ + json_generic_args((*a1)))); }
            out.append("]");
            proof { assert(out@ =~= old(out)@ + ("{\"Closure\":"@ + "["@ + dec_u128((*a0).index as u128) + ","@ + json_generic_args((*a1)) + "]"@)); }
            out.append("}");
            proof { assert(out@ =~= old(out)@ + ("{\"Closure\":"@ + "["@ + dec_u128((*a0).index as u128) + ","@ + json_generic_args((*a1)) + "]"@ + "}"@)); }
        },
        TraitInstanceId::SelfId => { out.append("\"SelfId\""); },
        TraitInstanceId::Unsolved(a0, a1) => {
            out.append("{\"Unsolved\":");
            proof { assert(out@ =~= old(out)@ + ("{\"Unsolved\":"@)); }
            out.append("[");
            proof { assert(out@ =~= old(out)@ + ("{\"Unsolved\":"@ + "["@)); }
            write_usize(out, a0.index);
            proof { assert(out@ =~= old(out)@ + ("{\"Unsolved\":"@ + "["@ + dec_u128((*a0).index as u128))); }
            out.append(",");
            proof { assert(out@ =~= old(out)@ + ("{\"Unsolved\":"@ + "["@ + dec_u128((*a0).index as u128) + ","@)); }
            write_generic_args(out, a1);
            proof { assert(out@ =~= old(out)@ + ("{\"Unsolved\":"@ + "["@ + dec_u128((*a0).index as u128) + ","@ + json_generic_args((*a1)))); }
            out.append("]");
            proof { assert(out@ =~= old(out)@ + ("{\"Unsolved\":"@ + "["@ + dec_u128((*a0).index as u128) + ","@ + json_generic_args((*a1)) + "]"@)); }
            out.append("}");
            proof { assert(out@ =~= old(out)@ + ("{\"Unsolved\":"@ + "["@ + dec_u128((*a0).index as u128) + ","@ + json_generic_args((*a1)) + "]"@ + "}"@)); }
        },
        TraitInstanceId::Unknown(a0) => {
            out.append("{\"Unknown\":");
            proof { assert(out@ =~= old(out)@ + ("{\"Unknown\":"@)); }
            write_string(out, a0);
            proof { assert(out@ =~= old(out)@ + ("{\"Unknown\":"@ + json_string((*a0)@))); }
            out.append("}");
            proof { assert(out@ =~= old(out)@ + ("{\"Unknown\":"@ + json_string((*a0)@) + "}"@)); }
        },
    }
    proof {
        assert(out@ =~= old(out)@ + json_trait_instance_id(*x));
    }
}

/// Append the serialization of this value.
#[verifier::rlimit(100)]
#[verifier::spinoff_prover]
pub fn write_trait_decl_ref(out: &mut String, x: &TraitDeclRef)
    ensures
        final(out)@ == old(out)@ + json_trait_decl_ref(*x),
    decreases *x,
{
    proof {
        reveal(json_trait_decl_ref);
    }
    out.append("{\"trait_id\":");
    proof { assert(out@ =~= old(out)@ + ("{\"trait_id\":"@)); }
    write_usize(out, x.trait_id.index);
    proof { assert(out@ =~= old(out)@ + ("{\"trait_id\":"@ + dec_u128(x.trait_id.index as u128))); }
    out.append(",\"generics\":");
    proof { assert(out@ =~= old(out)@ + ("{\"trait_id\":"@ + dec_u128(x.trait_id.index as u128) + ",\"generics\":"@)); }
    write_generic_args(out, &x.generics);
    proof { assert(out@ =~= old(out)@ + ("{\"trait_id\":"@ + dec_u128(x.trait_id.index as u128) + ",\"generics\":"@ + json_generic_args(x.generics))); }
    out.append("}");
    proof { assert(out@ =~= old(out)@ + ("{\"trait_id\":"@ + dec_u128(x.trait_id.index as u128) + ",\"generics\":"@ + json_generic_args(x.generics) + "}"@)); }
    proof {
        assert(out@ =~= old(out)@ + json_trait_decl_ref(*x));
    }
}

/// Append the serialization of this value.
#[verifier::rlimit(100)]
#[verifier::spinoff_prover]
pub fn write_trait_ref(out: &mut String, x: &TraitRef)
    ensures
        final(out)@ == old(out)@ + json_trait_ref(*x),
    decreases *x,
{
    proof {
        reveal(json_trait_ref);
    }
    out.append("{\"trait_id\":");
    proof { assert(out@ =~= old(out)@ + ("{\"trait_id\":"@)); }
    write_trait_instance_id(out, &x.trait_id);
    proof { assert(out@ =~= old(out)@ + ("{\"trait_id\":"@ + json_trait_instance_id(x.trait_id))); }
    out.append(",\"generics\":");
    proof { assert(out@ =~= old(out)@ + ("{\"trait_id\":"@ + json_trait_instance_id(x.trait_id) + ",\"generics\":"@)); }
    write_generic_args(out, &x.generics);
    proof { assert(out@ =~= old(out)@ + ("{\"trait_id\":"@ + json_trait_instance_id(x.trait_id) + ",\"generics\":"@ + json_generic_args(x.generics))); }
    out.append(",\"trait_decl_ref\":");
    proof { assert(out@ =~= old(out)@ + ("{\"trait_id\":"@ + json_trait_instance_id(x.trait_id) + ",\"generics\":"@ + json_generic_args(x.generics) + ",\"trait_decl_ref\":"@)); }
    write_trait_decl_ref(out, &x.trait_decl_ref);
    proof { assert(out@ =~= old(out)@ + ("{\"trait_id\":"@ + json_trait_instance_id(x.trait_id) + ",\"generics\":"@ + json_generic_args(x.generics) + ",\"trait_decl_ref\":"@ + json_trait_decl_ref(x.trait_decl_ref))); }
    out.append("}");
    proof { assert(out@ =~= old(out)@ + ("{\"trait_id\":"@ + json_trait_instance_id(x.trait_id) + ",\"generics\":"@ + json_generic_args(x.generics) + ",\"trait_decl_ref\":"@ + json_trait_decl_ref(x.trait_decl_ref) + "}"@)); }
    proof {
        assert(out@ =~= old(out)@ + json_trait_ref(*x));
    }
}

/// Append the serialization of this list, as an array.
#[verifier::rlimit(100)]
#[verifier::spinoff_prover]
#[verifier::loop_isolation(false)]
pub fn write_region_var_array(out: &mut String, v: &Vec<RegionVar>)
    ensures
        final(out)@ == old(out)@ + "["@ + json_region_var_list(v@) + "]"@,
    decreases *v,
{
    proof {
        reveal_with_fuel(json_region_var_list, 2);
    }
    out.append("[");
    let mut i: usize = 0;
    while i < v.len()
        invariant
            i <= v@.len(),
            out@ == old(out)@ + "["@ + json_region_var_list(v@.take(i as int)),
        decreases v@.len() - i,
    {
        if i > 0 {
            out.append(",");
        }
        write_region_var(out, &v[i]);
        proof {
            assert(v@.take(i + 1 as int).drop_last() =~= v@.take(i as int));
            assert(v@.take(i + 1 as int).last() == v@[i as int]);
            assert(out@ =~= old(out)@ + "["@ + json_region_var_list(v@.take(i + 1 as int)));
        }
        i += 1;
    }
    proof {
        assert(v@.take(v@.len() as int) =~= v@);
    }
    out.append("]");
    proof {
        assert(out@ =~= old(out)@ + "["@ + json_region_var_list(v@) + "]"@);
    }
}

/// Append the serialization of this value.
#[verifier::rlimit(100)]
#[verifier::spinoff_prover]
pub fn write_ty(out: &mut String, x: &Ty)
    ensures
        final(out)@ == old(out)@ + json_ty(*x),
    decreases *x,
{
    proof {
        reveal(json_ty);
    }
    match x {
        Ty::Adt(a0, a1) => {
            out.append("{\"Adt\":");
            proof { assert(out@ =~= old(out)@ + ("{\"Adt\":"@)); }
            out.append("[");
            proof { assert(out@ =~= old(out)@ + ("{\"Adt\":"@ + "["@)); }
            write_type_id(out, a0);
            proof { assert(out@ =~= old(out)@ + ("{\"Adt\":"@ + "["@ + json_type_id((*a0)))); }
            out.append(",");
            proof { assert(out@ =~= old(out)@ + ("{\"Adt\":"@ + "["@ + json_type_id((*a0)) + ","@)); }
            write_generic_args(out, a1);
            proof { assert(out@ =~= old(out)@ + ("{\"Adt\":"@ + "["@ + json_type_id((*a0)) + ","@ + json_generic_args((*a1)))); }
            out.append("]");
            proof { assert(out@ =~= old(out)@ + ("{\"Adt\":"@ + "["@ + json_type_id((*a0)) + ","@ + json_generic_args((*a1)) + "]"@)); }
            out.append("}");
            proof { assert(out@ =~= old(out)@ + ("{\"Adt\":"@ + "["@ + json_type_id((*a0)) + ","@ + json_generic_args((*a1)) + "]"@ + "}"@)); }
        },
        Ty::TypeVar(a0) => {
            out.append("{\"TypeVar\":");
            proof { assert(out@ =~= old(out)@ + ("{\"TypeVar\":"@)); }
            write_usize(out, a0.index);
            proof { assert(out@ =~= old(out)@ + ("{\"TypeVar\":"@ + dec_u128((*a0).index as u128))); }
            out.append("}");
            proof { assert(out@ =~= old(out)@ + ("{\"TypeVar\":"@ + dec_u128((*a0).index as u128) + "}"@)); }
        },
        Ty::Literal(a0) => {
            out.append("{\"Literal\":");
            proof { assert(out@ =~= old(out)@ + ("{\"Literal\":"@)); }
            write_literal_ty(out, a0);
            proof { assert(out@ =~= old(out)@ + ("{\"Literal\":"@ + json_literal_ty((*a0)))); }
            out.append("}");
            proof { assert(out@ =~= old(out)@ + ("{\"Literal\":"@ + json_literal_ty((*a0)) + "}"@)); }
        },
        Ty::Never => { out.append("\"Never\""); },
        Ty::Ref(a0, a1, a2) => {
            out.append("{\"Ref\":");
            proof { assert(out@ =~= old(out)@ + ("{\"Ref\":"@)); }
            out.append("[");
            proof { assert(out@ =~= old(out)@ + ("{\"Ref\":"@ + "["@)); }
            write_region(out, a0);
            proof { assert(out@ =~= old(out)@ + ("{\"Ref\":"@ + "["@ + json_region((*a0)))); }
            out.append(",");
            proof { assert(out@ =~= old(out)@ + ("{\"Ref\":"@ + "["@ + json_region((*a0)) + ","@)); }
            write_ty(out, &(**a1));
            proof { assert(out@ =~= old(out)@ + ("{\"Ref\":"@ + "["@ + json_region((*a0)) + ","@ + json_ty((*(*a1))))); }
            out.append(",");
            proof { assert(out@ =~= old(out)@ + ("{\"Ref\":"@ + "["@ + json_region((*a0)) + ","@ + json_ty((*(*a1))) + ","@)); }
            write_ref_kind(out, a2);
            proof { assert(out@ =~= old(out)@ + ("{\"Ref\":"@ + "["@ + json_region((*a0)) + ","@ + json_ty((*(*a1))) + ","@ + json_ref_kind((*a2)))); }
            out.append("]");
            proof { assert(out@ =~= old(out)@ + ("{\"Ref\":"@ + "["@ + json_region((*a0)) + ","@ + json_ty((*(*a1))) + ","@ + json_ref_kind((*a2)) + "]"@)); }
            out.append("}");
            proof { assert(out@ =~= old(out)@ + ("{\"Ref\":"@ + "["@ + json_region((*a0)) + ","@ + json_ty((*(*a1))) + ","@ + json_ref_kind((*a2)) + "]"@ + "}"@)); }
        },
        Ty::RawPtr(a0, a1) => {
            out.append("{\"RawPtr\":");
            proof { assert(out@ =~= old(out)@ + ("{\"RawPtr\":"@)); }
            out.append("[");
            proof { assert(out@ =~= old(out)@ + ("{\"RawPtr\":"@ + "["@)); }
            write_ty(out, &(**a0));
            proof { assert(out@ =~= old(out)@ + ("{\"RawPtr\":"@ + "["@ + json_ty((*(*a0))))); }
            out.append(",");
            proof { assert(out@ =~= old(out)@ + ("{\"RawPtr\":"@ + "["@ + json_ty((*(*a0))) + ","@)); }
            write_ref_kind(out, a1);
            proof { assert(out@ =~= old(out)@ + ("{\"RawPtr\":"@ + "["@ + json_ty((*(*a0))) + ","@ + json_ref_kind((*a1)))); }
            out.append("]");
            proof { assert(out@ =~= old(out)@ + ("{\"RawPtr\":"@ + "["@ + json_ty((*(*a0))) + ","@ + json_ref_kind((*a1)) + "]"@)); }
            out.append("}");
            proof { assert(out@ =~= old(out)@ + ("{\"RawPtr\":"@ + "["@ + json_ty((*(*a0))) + ","@ + json_ref_kind((*a1)) + "]"@ + "}"@)); }
        },
        Ty::TraitType(a0, a1) => {
            out.append("{\"TraitType\":");
            proof { assert(out@ =~= old(out)@ + ("{\"TraitType\":"@)); }
            out.append("[");
            proof { assert(out@ =~= old(out)@ + ("{\"TraitType\":"@ + "["@)); }
            write_trait_ref(out, a0);
            proof { assert(out@ =~= old(out)@ + ("{\"TraitType\":"@ + "["@ + json_trait_ref((*a0)))); }
            out.append(",");
            proof { assert(out@ =~= old(out)@ + ("{\"TraitType\":"@ + "["@ + json_trait_ref((*a0)) + ","@)); }
            write_trait_item_name(out, a1);
            proof { assert(out@ =~= old(out)@ + ("{\"TraitType\":"@ + "["@ + json_trait_ref((*a0)) + ","@ + json_trait_item_name((*a1)))); }
            out.append("]");
            proof { assert(out@ =~= old(out)@ + ("{\"TraitType\":"@ + "["@ + json_trait_ref((*a0)) + ","@ + json_trait_item_name((*a1)) + "]"@)); }
            out.append("}");
            proof { assert(out@ =~= old(out)@ + ("{\"TraitType\":"@ + "["@ + json_trait_ref((*a0)) + ","@ + json_trait_item_name((*a1)) + "]"@ + "}"@)); }
        },
        Ty::Arrow(a0, a1, a2) => {
            out.append("{\"Arrow\":");
            proof { assert(out@ =~= old(out)@ + ("{\"Arrow\":"@)); }
            out.append("[");
            proof { assert(out@ =~= old(out)@ + ("{\"Arrow\":"@ + "["@)); }
            write_region_var_array(out, a0);
            proof { assert(out@ =~= old(out)@ + ("{\"Arrow\":"@ + "["@ + ("["@ + json_region_var_list((*a0)@) + "]"@))); }
            out.append(",");
            proof { assert(out@ =~= old(out)@ + ("{\"Arrow\":"@ + "["@ + ("["@ + json_region_var_list((*a0)@) + "]"@) + ","@)); }
            write_ty_array(out, a1);
            proof { assert(out@ =~= old(out)@ + ("{\"Arrow\":"@ + "["@ + ("["@ + json_region_var_list((*a0)@) + "]"@) + ","@ + ("["@ + json_ty_list((*a1)@) + "]"@))); }
            out.append(",");
            proof { assert(out@ =~= old(out)@ + ("{\"Arrow\":"@ + "["@ + ("["@ + json_region_var_list((*a0)@) + "]"@) + ","@ + ("["@ + json_ty_list((*a1)@) + "]"@) + ","@)); }
            write_ty(out, &(**a2));
            proof { assert(out@ =~= old(out)@ + ("{\"Arrow\":"@ + "["@ + ("["@ + json_region_var_list((*a0)@) + "]"@) + ","@ + ("["@ + json_ty_list((*a1)@) + "]"@) + ","@ + json_ty((*(*a2))))); }
            out.append("]");
            proof { assert(out@ =~= old(out)@ + ("{\"Arrow\":"@ + "["@ + ("["@ + json_region_var_list((*a0)@) + "]"@) + ","@ + ("["@ + json_ty_list((*a1)@) + "]"@) + ","@ + json_ty((*(*a2))) + "]"@)); }
            out.append("}");
            proof { assert(out@ =~= old(out)@ + ("{\"Arrow\":"@ + "["@ + ("["@ + json_region_var_list((*a0)@) + "]"@) + ","@ + ("["@ + json_ty_list((*a1)@) + "]"@) + ","@ + json_ty((*(*a2))) + "]"@ + "}"@)); }
        },
    }
    proof {
        assert(out@ =~= old(out)@ + json_ty(*x));
    }
}

/// Append the serialization of this value.
#[verifier::rlimit(100)]
#[verifier::spinoff_prover]
pub fn write_region_outlives(out: &mut String, x: &RegionOutlives)
    ensures
        final(out)@ == old(out)@ + json_region_outlives(*x),
    decreases *x,
{
    proof {
        reveal(json_region_outlives);
    }
    out.append("[");
    proof { assert(out@ =~= old(out)@ + ("["@)); }
    write_region(out, &x.0);
    proof { assert(out@ =~= old(out)@ + ("["@ + json_region(x.0))); }
    out.append(",");
    proof { assert(out@ =~= old(out)@ + ("["@ + json_region(x.0) + ","@)); }
    write_region(out, &x.1);
    proof { assert(out@ =~= old(out)@ + ("["@ + json_region(x.0) + ","@ + json_region(x.1))); }
    out.append("]");
    proof { assert(out@ =~= old(out)@ + ("["@ + json_region(x.0) + ","@ + json_region(x.1) + "]"@)); }
    proof {
        assert(out@ =~= old(out)@ + json_region_outlives(*x));
    }
}

/// Append the serialization of this value.
#[verifier::rlimit(100)]
#[verifier::spinoff_prover]
pub fn write_type_outlives(out: &mut String, x: &TypeOutlives)
    ensures
        final(out)@ == old(out)@ + json_type_outlives(*x),
    decreases *x,
{
    proof {
        reveal(json_type_outlives);
    }
    out.append("[");
    proof { assert(out@ =~= old(out)@ + ("["@)); }
    write_ty(out, &x.0);
    proof { assert(out@ =~= old(out)@ + ("["@ + json_ty(x.0))); }
    out.append(",");
    proof { assert(out@ =~= old(out)@ + ("["@ + json_ty(x.0) + ","@)); }
    write_region(out, &x.1);
    proof { assert(out@ =~= old(out)@ + ("["@ + json_ty(x.0) + ","@ + json_region(x.1))); }
    out.append("]");
    proof { assert(out@ =~= old(out)@ + ("["@ + json_ty(x.0) + ","@ + json_region(x.1) + "]"@)); }
    proof {
        assert(out@ =~= old(out)@ + json_type_outlives(*x));
    }
}

/// Append the serialization of this value.
#[verifier::rlimit(100)]
#[verifier::spinoff_prover]
pub fn write_trait_type_constraint(out: &mut String, x: &TraitTypeConstraint)
    ensures
        final(out)@ == old(out)@ + json_trait_type_constraint(*x),
    decreases *x,
{
    proof {
        reveal(json_trait_type_constraint);
    }
    out.append("{\"trait_ref\":");
    proof { assert(out@ =~= old(out)@ + ("{\"trait_ref\":"@)); }
    write_trait_ref(out, &x.trait_ref);
    proof { assert(out@ =~= old(out)@ + ("{\"trait_ref\":"@ + json_trait_ref(x.trait_ref))); }
    out.append(",\"ty_name\":");
    proof { assert(out@ =~= old(out)@ + ("{\"trait_ref\":"@ + json_trait_ref(x.trait_ref) + ",\"ty_name\":"@)); }
    write_trait_item_name(out, &x.ty_name);
    proof { assert(out@ =~= old(out)@ + ("{\"trait_ref\":"@ + json_trait_ref(x.trait_ref) + ",\"ty_name\":"@ + json_trait_item_name(x.ty_name))); }
    out.append(",\"ty\":");
    proof { assert(out@ =~= old(out)@ + ("{\"trait_ref\":"@ + json_trait_ref(x.trait_ref) + ",\"ty_name\":"@ + json_trait_item_name(x.ty_name) + ",\"ty\":"@)); }
    write_ty(out, &x.ty);
    proof { assert(out@ =~= old(out)@ + ("{\"trait_ref\":"@ + json_trait_ref(x.trait_ref) + ",\"ty_name\":"@ + json_trait_item_name(x.ty_name) + ",\"ty\":"@ + json_ty(x.ty))); }
    out.append("}");
    proof { assert(out@ =~= old(out)@ + ("{\"trait_ref\":"@ + json_trait_ref(x.trait_ref) + ",\"ty_name\":"@ + json_trait_item_name(x.ty_name) + ",\"ty\":"@ + json_ty(x.ty) + "}"@)); }
    proof {
        assert(out@ =~= old(out)@ + json_trait_type_constraint(*x));
    }
}

/// Append the serialization of this list, as an array.
#[verifier::rlimit(100)]
#[verifier::spinoff_prover]
#[verifier::loop_isolation(false)]
pub fn write_region_outlives_array(out: &mut String, v: &Vec<RegionOutlives>)
    ensures
        final(out)@ == old(out)@ + "["@ + json_region_outlives_list(v@) + "]"@,
    decreases *v,
{
    proof {
        reveal_with_fuel(json_region_outlives_list, 2);
    }
    out.append("[");
    let mut i: usize = 0;
    while i < v.len()
        invariant
            i <= v@.len(),
            out@ == old(out)@ + "["@ + json_region_outlives_list(v@.take(i as int)),
        decreases v@.len() - i,
    {
        if i > 0 {
            out.append(",");
        }
        write_region_outlives(out, &v[i]);
        proof {
            assert(v@.take(i + 1 as int).drop_last() =~= v@.take(i as int));
            assert(v@.take(i + 1 as int).last() == v@[i as int]);
            assert(out@ =~= old(out)@ + "["@ + json_region_outlives_list(v@.take(i + 1 as int)));
        }
        i += 1;
    }
    proof {
        assert(v@.take(v@.len() as int) =~= v@);
    }
    out.append("]");
    proof {
        assert(out@ =~= old(out)@ + "["@ + json_region_outlives_list(v@) + "]"@);
    }
}

/// Append the serialization of this list, as an array.
#[verifier::rlimit(100)]
#[verifier::spinoff_prover]
#[verifier::loop_isolation(false)]
pub fn write_type_outlives_array(out: &mut String, v: &Vec<TypeOutlives>)
    ensures
        final(out)@ == old(out)@ + "["@ + json_type_outlives_list(v@) + "]"@,
    decreases *v,
{
    proof {
        reveal_with_fuel(json_type_outlives_list, 2);
    }
    out.append("[");
    let mut i: usize = 0;
    while i < v.len()
        invariant
            i <= v@.len(),
            out@ == old(out)@ + "["@ + json_type_outlives_list(v@.take(i as int)),
        decreases v@.len() - i,
    {
        if i > 0 {
            out.append(",");
        }
        write_type_outlives(out, &v[i]);
        proof {
            assert(v@.take(i + 1 as int).drop_last() =~= v@.take(i as int));
            assert(v@.take(i + 1 as int).last() == v@[i as int]);
            assert(out@ =~= old(out)@ + "["@ + json_type_outlives_list(v@.take(i + 1 as int)));
        }
        i += 1;
    }
    proof {
        assert(v@.take(v@.len() as int) =~= v@);
    }
    out.append("]");
    proof {
        assert(out@ =~= old(out)@ + "["@ + json_type_outlives_list(v@) + "]"@);
    }
}

/// Append the serialization of this list, as an array.
#[verifier::rlimit(100)]
#[verifier::spinoff_prover]
#[verifier::loop_isolation(false)]
pub fn write_trait_type_constraint_array(out: &mut String, v: &Vec<TraitTypeConstraint>)
    ensures
        final(out)@ == old(out)@ + "["@ + json_trait_type_constraint_list(v@) + "]"@,
    decreases *v,
{
    proof {
        reveal_with_fuel(json_trait_type_constraint_list, 2);
    }
    out.append("[");
    let mut i: usize = 0;
    while i < v.len()
        invariant
            i <= v@.len(),
            out@ == old(out)@ + "["@ + json_trait_type_constraint_list(v@.take(i as int)),
        decreases v@.len() - i,
    {
        if i > 0 {
            out.append(",");
        }
        write_trait_type_constraint(out, &v[i]);
        proof {
            assert(v@.take(i + 1 as int).drop_last() =~= v@.take(i as int));
            assert(v@.take(i + 1 as int).last() == v@[i as int]);
            assert(out@ =~= old(out)@ + "["@ + json_trait_type_constraint_list(v@.take(i + 1 as int)));
        }
        i += 1;
    }
    proof {
        assert(v@.take(v@.len() as int) =~= v@);
    }
    out.append("]");
    proof {
        assert(out@ =~= old(out)@ + "["@ + json_trait_type_constraint_list(v@) + "]"@);
    }
}

/// Append the serialization of this value.
#[verifier::rlimit(100)]
#[verifier::spinoff_prover]
pub fn write_predicates(out: &mut String, x: &Predicates)
    ensures
        final(out)@ == old(out)@ + json_predicates(*x),
    decreases *x,
{
    proof {
        reveal(json_predicates);
    }
    out.append("{\"regions_outlive\":");
    proof { assert(out@ =~= old(out)@ + ("{\"regions_outlive\":"@)); }
    write_region_outlives_array(out, &x.regions_outlive);
    proof { assert(out@ =~= old(out)@ + ("{\"regions_outlive\":"@ + ("["@ + json_region_outlives_list(x.regions_outlive@) + "]"@))); }
    out.append(",\"types_outlive\":");
    proof { assert(out@ =~= old(out)@ + ("{\"regions_outlive\":"@ + ("["@ + json_region_outlives_list(x.regions_outlive@) + "]"@) + ",\"types_outlive\":"@)); }
    write_type_outlives_array(out, &x.types_outlive);
    proof { assert(out@ =~= old(out)@ + ("{\"regions_outlive\":"@ + ("["@ + json_region_outlives_list(x.regions_outlive@) + "]"@) + ",\"types_outlive\":"@ + ("["@ + json_type_outlives_list(x.types_outlive@) + "]"@))); }
    out.append(",\"trait_type_constraints\":");
    proof { assert(out@ =~= old(out)@ + ("{\"regions_outlive\":"@ + ("["@ + json_region_outlives_list(x.regions_outlive@) + "]"@) + ",\"types_outlive\":"@ + ("["@ + json_type_outlives_list(x.types_outlive@) + "]"@) + ",\"trait_type_constraints\":"@)); }
    write_trait_type_constraint_array(out, &x.trait_type_constraints);
    proof { assert(out@ =~= old(out)@ + ("{\"regions_outlive\":"@ + ("["@ + json_region_outlives_list(x.regions_outlive@) + "]"@) + ",\"types_outlive\":"@ + ("["@ + json_type_outlives_list(x.types_outlive@) + "]"@) + ",\"trait_type_constraints\":"@ + ("["@ + json_trait_type_constraint_list(x.trait_type_constraints@) + "]"@))); }
    out.append("}");
    proof { assert(out@ =~= old(out)@ + ("{\"regions_outlive\":"@ + ("["@ + json_region_outlives_list(x.regions_outlive@) + "]"@) + ",\"types_outlive\":"@ + ("["@ + json_type_outlives_list(x.types_outlive@) + "]"@) + ",\"trait_type_constraints\":"@ + ("["@ + json_trait_type_constraint_list(x.trait_type_constraints@) + "]"@) + "}"@)); }
    proof {
        assert(out@ =~= old(out)@ + json_predicates(*x));
    }
}

/// Append the serialization of this value.
#[verifier::rlimit(100)]
#[verifier::spinoff_prover]
pub fn write_trait_clause(out: &mut String, x: &TraitClause)
    ensures
        final(out)@ == old(out)@ + json_trait_clause(*x),
    decreases *x,
{
    proof {
        reveal(json_trait_clause);
    }
    out.append("{\"clause_id\":");
    proof { assert(out@ =~= old(out)@ + ("{\"clause_id\":"@)); }
    write_usize(out, x.clause_id.index);
    proof { assert(out@ =~= old(out)@ + ("{\"clause_id\":"@ + dec_u128(x.clause_id.index as u128))); }
    out.append(",\"meta\":");
    proof { assert(out@ =~= old(out)@ + ("{\"clause_id\":"@ + dec_u128(x.clause_id.index as u128) + ",\"meta\":"@)); }
    match &x.meta { Option::Some(v) => { write_meta(out, &(*v)); }, Option::None => { out.append("null"); }, }
    proof { assert(out@ =~= old(out)@ + ("{\"clause_id\":"@ + dec_u128(x.clause_id.index as u128) + ",\"meta\":"@ + (match x.meta { Option::Some(v) => json_meta(v), Option::None => "null"@ }))); }
    out.append(",\"trait_id\":");
    proof { assert(out@ =~= old(out)@ + ("{\"clause_id\":"@ + dec_u128(x.clause_id.index as u128) + ",\"meta\":"@ + (match x.meta { Option::Some(v) => json_meta(v), Option::None => "null"@ }) + ",\"trait_id\":"@)); }
    write_usize(out, x.trait_id.index);
    proof { assert(out@ =~= old(out)@ + ("{\"clause_id\":"@ + dec_u128(x.clause_id.index as u128) + ",\"meta\":"@ + (match x.meta { Option::Some(v) => json_meta(v), Option::None => "null"@ }) + ",\"trait_id\":"@ + dec_u128(x.trait_id.index as u128))); }
    out.append(",\"generics\":");
    proof { assert(out@ =~= old(out)@ + ("{\"clause_id\":"@ + dec_u128(x.clause_id.index as u128) + ",\"meta\":"@ + (match x.meta { Option::Some(v) => json_meta(v), Option::None => "null"@ }) + ",\"trait_id\":"@ + dec_u128(x.trait_id.index as u128) + ",\"generics\":"@)); }
    write_generic_args(out, &x.generics);
    proof { assert(out@ =~= old(out)@ + ("{\"clause_id\":"@ + dec_u128(x.clause_id.index as u128) + ",\"meta\":"@ + (match x.meta { Option::Some(v) => json_meta(v), Option::None => "null"@ }) + ",\"trait_id\":"@ + dec_u128(x.trait_id.index as u128) + ",\"generics\":"@ + json_generic_args(x.generics))); }
    out.append("}");
    proof { assert(out@ =~= old(out)@ + ("{\"clause_id\":"@ + dec_u128(x.clause_id.index as u128) + ",\"meta\":"@ + (match x.meta { Option::Some(v) => json_meta(v), Option::None => "null"@ }) + ",\"trait_id\":"@ + dec_u128(x.trait_id.index as u128) + ",\"generics\":"@ + json_generic_args(x.generics) + "}"@)); }
    proof {
        assert(out@ =~= old(out)@ + json_trait_clause(*x));
    }
}

/// Append the serialization of this list, as an array.
#[verifier::rlimit(100)]
#[verifier::spinoff_prover]
#[verifier::loop_isolation(false)]
pub fn write_type_var_array(out: &mut String, v: &Vec<TypeVar>)
    ensures
        final(out)@ == old(out)@ + "["@ + json_type_var_list(v@) + "]"@,
    decreases *v,
{
    proof {
        reveal_with_fuel(json_type_var_list, 2);
    }
    out.append("[");
    let mut i: usize = 0;
    while i < v.len()
        invariant
            i <= v@.len(),
            out@ == old(out)@ + "["@ + json_type_var_list(v@.take(i as int)),
        decreases v@.len() - i,
    {
        if i > 0 {
            out.append(",");
        }
        write_type_var(out, &v[i]);
        proof {
            assert(v@.take(i + 1 as int).drop_last() =~= v@.take(i as int));
            assert(v@.take(i + 1 as int).last() == v@[i as int]);
            assert(out@ =~= old(out)@ + "["@ + json_type_var_list(v@.take(i + 1 as int)));
        }
        i += 1;
    }
    proof {
        assert(v@.take(v@.len() as int) =~= v@);
    }
    out.append("]");
    proof {
        assert(out@ =~= old(out)@ + "["@ + json_type_var_list(v@) + "]"@);
    }
}

/// Append the serialization of this list, as an array.
#[verifier::rlimit(100)]
#[verifier::spinoff_prover]
#[verifier::loop_isolation(false)]
pub fn write_const_generic_var_array(out: &mut String, v: &Vec<ConstGenericVar>)
    ensures
        final(out)@ == old(out)@ + "["@ + json_const_generic_var_list(v@) + "]"@,
    decreases *v,
{
    proof {
        reveal_with_fuel(json_const_generic_var_list, 2);
    }
    out.append("[");
    let mut i: usize = 0;
    while i < v.len()
        invariant
            i <= v@.len(),
            out@ == old(out)@ + "["@ + json_const_generic_var_list(v@.take(i as int)),
        decreases v@.len() - i,
    {
        if i > 0 {
            out.append(",");
        }
        write_const_generic_var(out, &v[i]);
        proof {
            assert(v@.take(i + 1 as int).drop_last() =~= v@.take(i as int));
            assert(v@.take(i + 1 as int).last() == v@[i as int]);
            assert(out@ =~= old(out)@ + "["@ + json_const_generic_var_list(v@.take(i + 1 as int)));
        }
        i += 1;
    }
    proof {
        assert(v@.take(v@.len() as int) =~= v@);
    }
    out.append("]");
    proof {
        assert(out@ =~= old(out)@ + "["@ + json_const_generic_var_list(v@) + "]"@);
    }
}

/// Append the serialization of this list, as an array.
#[verifier::rlimit(100)]
#[verifier::spinoff_prover]
#[verifier::loop_isolation(false)]
pub fn write_trait_clause_array(out: &mut String, v: &Vec<TraitClause>)
    ensures
        final(out)@ == old(out)@ + "["@ + json_trait_clause_list(v@) + "]"@,
    decreases *v,
{
    proof {
        reveal_with_fuel(json_trait_clause_list, 2);
    }
    out.append("[");
    let mut i: usize = 0;
    while i < v.len()
        invariant
            i <= v@.len(),
            out@ == old(out)@ + "["@ + json_trait_clause_list(v@.take(i as int)),
        decreases v@.len() - i,
    {
        if i > 0 {
            out.append(",");
        }
        write_trait_clause(out, &v[i]);
        proof {
            assert(v@.take(i + 1 as int).drop_last() =~= v@.take(i as int));
            assert(v@.take(i + 1 as int).last() == v@[i as int]);
            assert(out@ =~= old(out)@ + "["@ + json_trait_clause_list(v@.take(i + 1 as int)));
        }
        i += 1;
    }
    proof {
        assert(v@.take(v@.len() as int) =~= v@);
    }
    out.append("]");
    proof {
        assert(out@ =~= old(out)@ + "["@ + json_trait_clause_list(v@) + "]"@);
    }
}

/// Append the serialization of this value.
#[verifier::rlimit(100)]
#[verifier::spinoff_prover]
pub fn write_generic_params(out: &mut String, x: &GenericParams)
    ensures
        final(out)@ == old(out)@ + json_generic_params(*x),
    decreases *x,
{
    proof {
        reveal(json_generic_params);
    }
    out.append("{\"regions\":");
    proof { assert(out@ =~= old(out)@ + ("{\"regions\":"@)); }
    write_region_var_array(out, &x.regions);
    proof { assert(out@ =~= old(out)@ + ("{\"regions\":"@ + ("["@ + json_region_var_list(x.regions@) + "]"@))); }
    out.append(",\"types\":");
    proof { assert(out@ =~= old(out)@ + ("{\"regions\":"@ + ("["@ + json_region_var_list(x.regions@) + "]"@) + ",\"types\":"@)); }
    write_type_var_array(out, &x.types);
    proof { assert(out@ =~= old(out)@ + ("{\"regions\":"@ + ("["@ + json_region_var_list(x.regions@) + "]"@) + ",\"types\":"@ + ("["@ + json_type_var_list(x.types@) + "]"@))); }
    out.append(",\"const_generics\":");
    proof { assert(out@ =~= old(out)@ + ("{\"regions\":"@ + ("["@ + json_region_var_list(x.regions@) + "]"@) + ",\"types\":"@ + ("["@ + json_type_var_list(x.types@) + "]"@) + ",\"const_generics\":"@)); }
    write_const_generic_var_array(out, &x.const_generics);
    proof { assert(out@ =~= old(out)@ + ("{\"regions\":"@ + ("["@ + json_region_var_list(x.regions@) + "]"@) + ",\"types\":"@ + ("["@ + json_type_var_list(x.types@) + "]"@) + ",\"const_generics\":"@ + ("["@ + json_const_generic_var_list(x.const_generics@) + "]"@))); }
    out.append(",\"trait_clauses\":");
    proof { assert(out@ =~= old(out)@ + ("{\"regions\":"@ + ("["@ + json_region_var_list(x.regions@) + "]"@) + ",\"types\":"@ + ("["@ + json_type_var_list(x.types@) + "]"@) + ",\"const_generics\":"@ + ("["@ + json_const_generic_var_list(x.const_generics@) + "]"@) + ",\"trait_clauses\":"@)); }
    write_trait_clause_array(out, &x.trait_clauses);
    proof { assert(out@ =~= old(out)@ + ("{\"regions\":"@ + ("["@ + json_region_var_list(x.regions@) + "]"@) + ",\"types\":"@ + ("["@ + json_type_var_list(x.types@) + "]"@) + ",\"const_generics\":"@ + ("["@ + json_const_generic_var_list(x.const_generics@) + "]"@) + ",\"trait_clauses\":"@ + ("["@ + json_trait_clause_list(x.trait_clauses@) + "]"@))); }
    out.append("}");
    proof { assert(out@ =~= old(out)@ + ("{\"regions\":"@ + ("["@ + json_region_var_list(x.regions@) + "]"@) + ",\"types\":"@ + ("["@ + json_type_var_list(x.types@) + "]"@) + ",\"const_generics\":"@ + ("["@ + json_const_generic_var_list(x.const_generics@) + "]"@) + ",\"trait_clauses\":"@ + ("["@ + json_trait_clause_list(x.trait_clauses@) + "]"@) + "}"@)); }
    proof {
        assert(out@ =~= old(out)@ + json_generic_params(*x));
    }
}

/// Append the serialization of this value.
#[verifier::rlimit(100)]
#[verifier::spinoff_prover]
pub fn write_impl_elem_kind(out: &mut String, x: &ImplElemKind)
    ensures
        final(out)@ == old(out)@ + json_impl_elem_kind(*x),
    decreases *x,
{
    proof {
        reveal(json_impl_elem_kind);
    }
    match x {
        ImplElemKind::Ty(a0) => {
            out.append("{\"Ty\":");
            proof { assert(out@ =~= old(out)@ + ("{\"Ty\":"@)); }
            write_ty(out, a0);
            proof { assert(out@ =~= old(out)@ + ("{\"Ty\":"@ + json_ty((*a0)))); }
            out.append("}");
            proof { assert(out@ =~= old(out)@ + ("{\"Ty\":"@ + json_ty((*a0)) + "}"@)); }
        },
        ImplElemKind::Trait(a0) => {
            out.append("{\"Trait\":");
            proof { assert(out@ =~= old(out)@ + ("{\"Trait\":"@)); }
            write_trait_decl_ref(out, a0);
            proof { assert(out@ =~= old(out)@ + ("{\"Trait\":"@ + json_trait_decl_ref((*a0)))); }
            out.append("}");
            proof { assert(out@ =~= old(out)@ + ("{\"Trait\":"@ + json_trait_decl_ref((*a0)) + "}"@)); }
        },
    }
    proof {
        assert(out@ =~= old(out)@ + json_impl_elem_kind(*x));
    }
}

/// Append the serialization of this value.
#[verifier::rlimit(100)]
#[verifier::spinoff_prover]
pub fn write_impl_elem(out: &mut String, x: &ImplElem)
    ensures
        final(out)@ == old(out)@ + json_impl_elem(*x),
    decreases *x,
{
    proof {
        reveal(json_impl_elem);
    }
    out.append("{\"disambiguator\":");
    proof { assert(out@ =~= old(out)@ + ("{\"disambiguator\":"@)); }
    write_usize(out, x.disambiguator.index);
    proof { assert(out@ =~= old(out)@ + ("{\"disambiguator\":"@ + dec_u128(x.disambiguator.index as u128))); }
    out.append(",\"generics\":");
    proof { assert(out@ =~= old(out)@ + ("{\"disambiguator\":"@ + dec_u128(x.disambiguator.index as u128) + ",\"generics\":"@)); }
    write_generic_params(out, &x.generics);
    proof { assert(out@ =~= old(out)@ + ("{\"disambiguator\":"@ + dec_u128(x.disambiguator.index as u128) + ",\"generics\":"@ + json_generic_params(x.generics))); }
    out.append(",\"preds\":");
    proof { assert(out@ =~= old(out)@ + ("{\"disambiguator\":"@ + dec_u128(x.disambiguator.index as u128) + ",\"generics\":"@ + json_generic_params(x.generics) + ",\"preds\":"@)); }
    write_predicates(out, &x.preds);
    proof { assert(out@ =~= old(out)@ + ("{\"disambiguator\":"@ + dec_u128(x.disambiguator.index as u128) + ",\"generics\":"@ + json_generic_params(x.generics) + ",\"preds\":"@ + json_predicates(x.preds))); }
    out.append(",\"kind\":");
    proof { assert(out@ =~= old(out)@ + ("{\"disambiguator\":"@ + dec_u128(x.disambiguator.index as u128) + ",\"generics\":"@ + json_generic_params(x.generics) + ",\"preds\":"@ + json_predicates(x.preds) + ",\"kind\":"@)); }
    write_impl_elem_kind(out, &x.kind);
    proof { assert(out@ =~= old(out)@ + ("{\"disambiguator\":"@ + dec_u128(x.disambiguator.index as u128) + ",\"generics\":"@ + json_generic_params(x.generics) + ",\"preds\":"@ + json_predicates(x.preds) + ",\"kind\":"@ + json_impl_elem_kind(x.kind))); }
    out.append("}");
    proof { assert(out@ =~= old(out)@ + ("{\"disambiguator\":"@ + dec_u128(x.disambiguator.index as u128) + ",\"generics\":"@ + json_generic_params(x.generics) + ",\"preds\":"@ + json_predicates(x.preds) + ",\"kind\":"@ + json_impl_elem_kind(x.kind) + "}"@)); }
    proof {
        assert(out@ =~= old(out)@ + json_impl_elem(*x));
    }
}

/// Append the serialization of this value.
#[verifier::rlimit(100)]
#[verifier::spinoff_prover]
pub fn write_path_elem(out: &mut String, x: &PathElem)
    ensures
        final(out)@ == old(out)@ + json_path_elem(*x),
    decreases *x,
{
    proof {
        reveal(json_path_elem);
    }
    match x {
        PathElem::Ident(a0, a1) => {
            out.append("{\"Ident\":");
            proof { assert(out@ =~= old(out)@ + ("{\"Ident\":"@)); }
            out.append("[");
            proof { assert(out@ =~= old(out)@ + ("{\"Ident\":"@ + "["@)); }
            write_string(out, a0);
            proof { assert(out@ =~= old(out)@ + ("{\"Ident\":"@ + "["@ + json_string((*a0)@))); }
            out.append(",");
            proof { assert(out@ =~= old(out)@ + ("{\"Ident\":"@ + "["@ + json_string((*a0)@) + ","@)); }
            write_usize(out, a1.index);
            proof { assert(out@ =~= old(out)@ + ("{\"Ident\":"@ + "["@ + json_string((*a0)@) + ","@ + dec_u128((*a1).index as u128))); }
            out.append("]");
            proof { assert(out@ =~= old(out)@ + ("{\"Ident\":"@ + "["@ + json_string((*a0)@) + ","@ + dec_u128((*a1).index as u128) + "]"@)); }
            out.append("}");
            proof { assert(out@ =~= old(out)@ + ("{\"Ident\":"@ + "["@ + json_string((*a0)@) + ","@ + dec_u128((*a1).index as u128) + "]"@ + "}"@)); }
        },
        PathElem::Impl(a0) => {
            out.append("{\"Impl\":");
            proof { assert(out@ =~= old(out)@ + ("{\"Impl\":"@)); }
            write_impl_elem(out, a0);
            proof { assert(out@ =~= old(out)@ + ("{\"Impl\":"@ + json_impl_elem((*a0)))); }
            out.append("}");
            proof { assert(out@ =~= old(out)@ + ("{\"Impl\":"@ + json_impl_elem((*a0)) + "}"@)); }
        },
    }
    proof {
        assert(out@ =~= old(out)@ + json_path_elem(*x));
    }
}

/// Append the serialization of this list, as an array.
#[verifier::rlimit(100)]
#[verifier::spinoff_prover]
#[verifier::loop_isolation(false)]
pub fn write_path_elem_array(out: &mut String, v: &Vec<PathElem>)
    ensures
        final(out)@ == old(out)@ + "["@ + json_path_elem_list(v@) + "]"@,
    decreases *v,
{
    proof {
        reveal_with_fuel(json_path_elem_list, 2);
    }
    out.append("[");
    let mut i: usize = 0;
    while i < v.len()
        invariant
            i <= v@.len(),
            out@ == old(out)@ + "["@ + json_path_elem_list(v@.take(i as int)),
        decreases v@.len() - i,
    {
        if i > 0 {
            out.append(",");
        }
        write_path_elem(out, &v[i]);
        proof {
            assert(v@.take(i + 1 as int).drop_last() =~= v@.take(i as int));
            assert(v@.take(i + 1 as int).last() == v@[i as int]);
            assert(out@ =~= old(out)@ + "["@ + json_path_elem_list(v@.take(i + 1 as int)));
        }
        i += 1;
    }
    proof {
        assert(v@.take(v@.len() as int) =~= v@);
    }
    out.append("]");
    proof {
        assert(out@ =~= old(out)@ + "["@ + json_path_elem_list(v@) + "]"@);
    }
}

/// Append the serialization of this value.
#[verifier::rlimit(100)]
#[verifier::spinoff_prover]
pub fn write_name(out: &mut String, x: &Name)
    ensures
        final(out)@ == old(out)@ + json_name(*x),
    decreases *x,
{
    proof {
        reveal(json_name);
    }
    write_path_elem_array(out, &x.name);
    proof {
        assert(out@ =~= old(out)@ + json_name(*x));
    }
}

/// Append the serialization of this value.
#[verifier::rlimit(100)]
#[verifier::spinoff_prover]
pub fn write_field(out: &mut String, x: &Field)
    ensures
        final(out)@ == old(out)@ + json_field(*x),
    decreases *x,
{
    proof {
        reveal(json_field);
    }
    out.append("{\"meta\":");
    proof { assert(out@ =~= old(out)@ + ("{\"meta\":"@)); }
    write_meta(out, &x.meta);
    proof { assert(out@ =~= old(out)@ + ("{\"meta\":"@ + json_meta(x.meta))); }
    out.append(",\"name\":");
    proof { assert(out@ =~= old(out)@ + ("{\"meta\":"@ + json_meta(x.meta) + ",\"name\":"@)); }
    match &x.name { Option::Some(v) => { write_string(out, &(*v)); }, Option::None => { out.append("null"); }, }
    proof { assert(out@ =~= old(out)@ + ("{\"meta\":"@ + json_meta(x.meta) + ",\"name\":"@ + (match x.name { Option::Some(v) => json_string(v@), Option::None => "null"@ }))); }
    out.append(",\"ty\":");
    proof { assert(out@ =~= old(out)@ + ("{\"meta\":"@ + json_meta(x.meta) + ",\"name\":"@ + (match x.name { Option::Some(v) => json_string(v@), Option::None => "null"@ }) + ",\"ty\":"@)); }
    write_ty(out, &x.ty);
    proof { assert(out@ =~= old(out)@ + ("{\"meta\":"@ + json_meta(x.meta) + ",\"name\":"@ + (match x.name { Option::Some(v) => json_string(v@), Option::None => "null"@ }) + ",\"ty\":"@ + json_ty(x.ty))); }
    out.append("}");
    proof { assert(out@ =~= old(out)@ + ("{\"meta\":"@ + json_meta(x.meta) + ",\"name\":"@ + (match x.name { Option::Some(v) => json_string(v@), Option::None => "null"@ }) + ",\"ty\":"@ + json_ty(x.ty) + "}"@)); }
    proof {
        assert(out@ =~= old(out)@ + json_field(*x));
    }
}

/// Append the serialization of this list, as an array.
#[verifier::rlimit(100)]
#[verifier::spinoff_prover]
#[verifier::loop_isolation(false)]
pub fn write_field_array(out: &mut String, v: &Vec<Field>)
    ensures
        final(out)@ == old(out)@ + "["@ + json_field_list(v@) + "]"@,
    decreases *v,
{
    proof {
        reveal_with_fuel(json_field_list, 2);
    }
    out.append("[");
    let mut i: usize = 0;
    while i < v.len()
        invariant
            i <= v@.len(),
            out@ == old(out)@ + "["@ + json_field_list(v@.take(i as int)),
        decreases v@.len() - i,
    {
        if i > 0 {
            out.append(",");
        }
        write_field(out, &v[i]);
        proof {
            assert(v@.take(i + 1 as int).drop_last() =~= v@.take(i as int));
            assert(v@.take(i + 1 as int).last() == v@[i as int]);
            assert(out@ =~= old(out)@ + "["@ + json_field_list(v@.take(i + 1 as int)));
        }
        i += 1;
    }
    proof {
        assert(v@.take(v@.len() as int) =~= v@);
    }
    out.append("]");
    proof {
        assert(out@ =~= old(out)@ + "["@ + json_field_list(v@) + "]"@);
    }
}

/// Append the serialization of this value.
#[verifier::rlimit(100)]
#[verifier::spinoff_prover]
pub fn write_variant(out: &mut String, x: &Variant)
    ensures
        final(out)@ == old(out)@ + json_variant(*x),
    decreases *x,
{
    proof {
        reveal(json_variant);
    }
    out.append("{\"meta\":");
    proof { assert(out@ =~= old(out)@ + ("{\"meta\":"@)); }
    write_meta(out, &x.meta);
    proof { assert(out@ =~= old(out)@ + ("{\"meta\":"@ + json_meta(x.meta))); }
    out.append(",\"name\":");
    proof { assert(out@ =~= old(out)@ + ("{\"meta\":"@ + json_meta(x.meta) + ",\"name\":"@)); }
    write_string(out, &x.name);
    proof { assert(out@ =~= old(out)@ + ("{\"meta\":"@ + json_meta(x.meta) + ",\"name\":"@ + json_string(x.name@))); }
    out.append(",\"fields\":");
    proof { assert(out@ =~= old(out)@ + ("{\"meta\":"@ + json_meta(x.meta) + ",\"name\":"@ + json_string(x.name@) + ",\"fields\":"@)); }
    write_field_array(out, &x.fields);
    proof { assert(out@ =~= old(out)@ + ("{\"meta\":"@ + json_meta(x.meta) + ",\"name\":"@ + json_string(x.name@) + ",\"fields\":"@ + ("["@ + json_field_list(x.fields@) + "]"@))); }
    out.append("}");
    proof { assert(out@ =~= old(out)@ + ("{\"meta\":"@ + json_meta(x.meta) + ",\"name\":"@ + json_string(x.name@) + ",\"fields\":"@ + ("["@ + json_field_list(x.fields@) + "]"@) + "}"@)); }
    proof {
        assert(out@ =~= old(out)@ + json_variant(*x));
    }
}

/// Append the serialization of this list, as an array.
#[verifier::rlimit(100)]
#[verifier::spinoff_prover]
#[verifier::loop_isolation(false)]
pub fn write_variant_array(out: &mut String, v: &Vec<Variant>)
    ensures
        final(out)@ == old(out)@ + "["@ + json_variant_list(v@) + "]"@,
    decreases *v,
{
    proof {
        reveal_with_fuel(json_variant_list, 2);
    }
    out.append("[");
    let mut i: usize = 0;
    while i < v.len()
        invariant
            i <= v@.len(),
            out@ == old(out)@ + "["@ + json_variant_list(v@.take(i as int)),
        decreases v@.len() - i,
    {
        if i > 0 {
            out.append(",");
        }
        write_variant(out, &v[i]);
        proof {
            assert(v@.take(i + 1 as int).drop_last() =~= v@.take(i as int));
            assert(v@.take(i + 1 as int).last() == v@[i as int]);
            assert(out@ =~= old(out)@ + "["@ + json_variant_list(v@.take(i + 1 as int)));
        }
        i += 1;
    }
    proof {
        assert(v@.take(v@.len() as int) =~= v@);
    }
    out.append("]");
    proof {
        assert(out@ =~= old(out)@ + "["@ + json_variant_list(v@) + "]"@);
    }
}

/// Append the serialization of this value.
#[verifier::rlimit(100)]
#[verifier::spinoff_prover]
pub fn write_type_decl_kind(out: &mut String, x: &TypeDeclKind)
    ensures
        final(out)@ == old(out)@ + json_type_decl_kind(*x),
    decreases *x,
{
    proof {
        reveal(json_type_decl_kind);
    }
    match x {
        TypeDeclKind::Struct(a0) => {
            out.append("{\"Struct\":");
            proof { assert(out@ =~= old(out)@ + ("{\"Struct\":"@)); }
            write_field_array(out, a0);
            proof { assert(out@ =~= old(out)@ + ("{\"Struct\":"@ + ("["@ + json_field_list((*a0)@) + "]"@))); }
            out.append("}");
            proof { assert(out@ =~= old(out)@ + ("{\"Struct\":"@ + ("["@ + json_field_list((*a0)@) + "]"@) + "}"@)); }
        },
        TypeDeclKind::Enum(a0) => {
            out.append("{\"Enum\":");
            proof { assert(out@ =~= old(out)@ + ("{\"Enum\":"@)); }
            write_variant_array(out, a0);
            proof { assert(out@ =~= old(out)@ + ("{\"Enum\":"@ + ("["@ + json_variant_list((*a0)@) + "]"@))); }
            out.append("}");
            proof { assert(out@ =~= old(out)@ + ("{\"Enum\":"@ + ("["@ + json_variant_list((*a0)@) + "]"@) + "}"@)); }
        },
        TypeDeclKind::Opaque => { out.append("\"Opaque\""); },
        TypeDeclKind::Error(a0) => {
            out.append("{\"Error\":");
            proof { assert(out@ =~= old(out)@ + ("{\"Error\":"@)); }
            write_string(out, a0);
            proof { assert(out@ =~= old(out)@ + ("{\"Error\":"@ + json_string((*a0)@))); }
            out.append("}");
            proof { assert(out@ =~= old(out)@ + ("{\"Error\":"@ + json_string((*a0)@) + "}"@)); }
        },
    }
    proof {
        assert(out@ =~= old(out)@ + json_type_decl_kind(*x));
    }
}

/// Append the serialization of this value.
#[verifier::rlimit(100)]
#[verifier::spinoff_prover]
pub fn write_type_decl(out: &mut String, x: &TypeDecl)
    ensures
        final(out)@ == old(out)@ + json_type_decl(*x),
    decreases *x,
{
    proof {
        reveal(json_type_decl);
    }
    out.append("{\"def_id\":");
    proof { assert(out@ =~= old(out)@ + ("{\"def_id\":"@)); }
    write_usize(out, x.def_id.index);
    proof { assert(out@ =~= old(out)@ + ("{\"def_id\":"@ + dec_u128(x.def_id.index as u128))); }
    out.append(",\"item_meta\":");
    proof { assert(out@ =~= old(out)@ + ("{\"def_id\":"@ + dec_u128(x.def_id.index as u128) + ",\"item_meta\":"@)); }
    write_item_meta(out, &x.item_meta);
    proof { assert(out@ =~= old(out)@ + ("{\"def_id\":"@ + dec_u128(x.def_id.index as u128) + ",\"item_meta\":"@ + json_item_meta(x.item_meta))); }
    out.append(",\"is_local\":");
    proof { assert(out@ =~= old(out)@ + ("{\"def_id\":"@ + dec_u128(x.def_id.index as u128) + ",\"item_meta\":"@ + json_item_meta(x.item_meta) + ",\"is_local\":"@)); }
    write_bool(out, x.is_local);
    proof { assert(out@ =~= old(out)@ + ("{\"def_id\":"@ + dec_u128(x.def_id.index as u128) + ",\"item_meta\":"@ + json_item_meta(x.item_meta) + ",\"is_local\":"@ + json_bool(x.is_local))); }
    out.append(",\"name\":");
    proof { assert(out@ =~= old(out)@ + ("{\"def_id\":"@ + dec_u128(x.def_id.index as u128) + ",\"item_meta\":"@ + json_item_meta(x.item_meta) + ",\"is_local\":"@ + json_bool(x.is_local) + ",\"name\":"@)); }
    write_name(out, &x.name);
    proof { assert(out@ =~= old(out)@ + ("{\"def_id\":"@ + dec_u128(x.def_id.index as u128) + ",\"item_meta\":"@ + json_item_meta(x.item_meta) + ",\"is_local\":"@ + json_bool(x.is_local) + ",\"name\":"@ + json_name(x.name))); }
    out.append(",\"generics\":");
    proof { assert(out@ =~= old(out)@ + ("{\"def_id\":"@ + dec_u128(x.def_id.index as u128) + ",\"item_meta\":"@ + json_item_meta(x.item_meta) + ",\"is_local\":"@ + json_bool(x.is_local) + ",\"name\":"@ + json_name(x.name) + ",\"generics\":"@)); }
    write_generic_params(out, &x.generics);
    proof { assert(out@ =~= old(out)@ + ("{\"def_id\":"@ + dec_u128(x.def_id.index as u128) + ",\"item_meta\":"@ + json_item_meta(x.item_meta) + ",\"is_local\":"@ + json_bool(x.is_local) + ",\"name\":"@ + json_name(x.name) + ",\"generics\":"@ + json_generic_params(x.generics))); }
    out.append(",\"preds\":");
    proof { assert(out@ =~= old(out)@ + ("{\"def_id\":"@ + dec_u128(x.def_id.index as u128) + ",\"item_meta\":"@ + json_item_meta(x.item_meta) + ",\"is_local\":"@ + json_bool(x.is_local) + ",\"name\":"@ + json_name(x.name) + ",\"generics\":"@ + json_generic_params(x.generics) + ",\"preds\":"@)); }
    write_predicates(out, &x.preds);
    proof { assert(out@ =~= old(out)@ + ("{\"def_id\":"@ + dec_u128(x.def_id.index as u128) + ",\"item_meta\":"@ + json_item_meta(x.item_meta) + ",\"is_local\":"@ + json_bool(x.is_local) + ",\"name\":"@ + json_name(x.name) + ",\"generics\":"@ + json_generic_params(x.generics) + ",\"preds\":"@ + json_predicates(x.preds))); }
    out.append(",\"kind\":");
    proof { assert(out@ =~= old(out)@ + ("{\"def_id\":"@ + dec_u128(x.def_id.index as u128) + ",\"item_meta\":"@ + json_item_meta(x.item_meta) + ",\"is_local\":"@ + json_bool(x.is_local) + ",\"name\":"@ + json_name(x.name) + ",\"generics\":"@ + json_generic_params(x.generics) + ",\"preds\":"@ + json_predicates(x.preds) + ",\"kind\":"@)); }
    write_type_decl_kind(out, &x.kind);
    proof { assert(out@ =~= old(out)@ + ("{\"def_id\":"@ + dec_u128(x.def_id.index as u128) + ",\"item_meta\":"@ + json_item_meta(x.item_meta) + ",\"is_local\":"@ + json_bool(x.is_local) + ",\"name\":"@ + json_name(x.name) + ",\"generics\":"@ + json_generic_params(x.generics) + ",\"preds\":"@ + json_predicates(x.preds) + ",\"kind\":"@ + json_type_decl_kind(x.kind))); }
    out.append("}");
    proof { assert(out@ =~= old(out)@ + ("{\"def_id\":"@ + dec_u128(x.def_id.index as u128) + ",\"item_meta\":"@ + json_item_meta(x.item_meta) + ",\"is_local\":"@ + json_bool(x.is_local) + ",\"name\":"@ + json_name(x.name) + ",\"generics\":"@ + json_generic_params(x.generics) + ",\"preds\":"@ + json_predicates(x.preds) + ",\"kind\":"@ + json_type_decl_kind(x.kind) + "}"@)); }
    proof {
        assert(out@ =~= old(out)@ + json_type_decl(*x));
    }
}

/// Append the serialization of this list, as an array.
#[verifier::rlimit(100)]
#[verifier::spinoff_prover]
#[verifier::loop_isolation(false)]
pub fn write_type_decl_array(out: &mut String, v: &Vec<TypeDecl>)
    ensures
        final(out)@ == old(out)@ + "["@ + json_type_decl_list(v@) + "]"@,
    decreases *v,
{
    proof {
        reveal_with_fuel(json_type_decl_list, 2);
    }
    out.append("[");
    let mut i: usize = 0;
    while i < v.len()
        invariant
            i <= v@.len(),
            out@ == old(out)@ + "["@ + json_type_decl_list(v@.take(i as int)),
        decreases v@.len() - i,
    {
        if i > 0 {
            out.append(",");
        }
        write_type_decl(out, &v[i]);
        proof {
            assert(v@.take(i + 1 as int).drop_last() =~= v@.take(i as int));
            assert(v@.take(i + 1 as int).last() == v@[i as int]);
            assert(out@ =~= old(out)@ + "["@ + json_type_decl_list(v@.take(i + 1 as int)));
        }
        i += 1;
    }
    proof {
        assert(v@.take(v@.len() as int) =~= v@);
    }
    out.append("]");
    proof {
        assert(out@ =~= old(out)@ + "["@ + json_type_decl_list(v@) + "]"@);
    }
}

/// Append the serialization of this value.
#[verifier::rlimit(100)]
#[verifier::spinoff_prover]
pub fn write_params_info(out: &mut String, x: &ParamsInfo)
    ensures
        final(out)@ == old(out)@ + json_params_info(*x),
    decreases *x,
{
    proof {
        reveal(json_params_info);
    }
    out.append("{\"num_region_params\":");
    proof { assert(out@ =~= old(out)@ + ("{\"num_region_params\":"@)); }
    write_usize(out, x.num_region_params);
    proof { assert(out@ =~= old(out)@ + ("{\"num_region_params\":"@ + dec_u128(x.num_region_params as u128))); }
    out.append(",\"num_type_params\":");
    proof { assert(out@ =~= old(out)@ + ("{\"num_region_params\":"@ + dec_u128(x.num_region_params as u128) + ",\"num_type_params\":"@)); }
    write_usize(out, x.num_type_params);
    proof { assert(out@ =~= old(out)@ + ("{\"num_region_params\":"@ + dec_u128(x.num_region_params as u128) + ",\"num_type_params\":"@ + dec_u128(x.num_type_params as u128))); }
    out.append(",\"num_const_generic_params\":");
    proof { assert(out@ =~= old(out)@ + ("{\"num_region_params\":"@ + dec_u128(x.num_region_params as u128) + ",\"num_type_params\":"@ + dec_u128(x.num_type_params as u128) + ",\"num_const_generic_params\":"@)); }
    write_usize(out, x.num_const_generic_params);
    proof { assert(out@ =~= old(out)@ + ("{\"num_region_params\":"@ + dec_u128(x.num_region_params as u128) + ",\"num_type_params\":"@ + dec_u128(x.num_type_params as u128) + ",\"num_const_generic_params\":"@ + dec_u128(x.num_const_generic_params as u128))); }
    out.append(",\"num_trait_clauses\":");
    proof { assert(out@ =~= old(out)@ + ("{\"num_region_params\":"@ + dec_u128(x.num_region_params as u128) + ",\"num_type_params\":"@ + dec_u128(x.num_type_params as u128) + ",\"num_const_generic_params\":"@ + dec_u128(x.num_const_generic_params as u128) + ",\"num_trait_clauses\":"@)); }
    write_usize(out, x.num_trait_clauses);
    proof { assert(out@ =~= old(out)@ + ("{\"num_region_params\":"@ + dec_u128(x.num_region_params as u128) + ",\"num_type_params\":"@ + dec_u128(x.num_type_params as u128) + ",\"num_const_generic_params\":"@ + dec_u128(x.num_const_generic_params as u128) + ",\"num_trait_clauses\":"@ + dec_u128(x.num_trait_clauses as u128))); }
    out.append(",\"num_regions_outlive\":");
    proof { assert(out@ =~= old(out)@ + ("{\"num_region_params\":"@ + dec_u128(x.num_region_params as u128) + ",\"num_type_params\":"@ + dec_u128(x.num_type_params as u128) + ",\"num_const_generic_params\":"@ + dec_u128(x.num_const_generic_params as u128) + ",\"num_trait_clauses\":"@ + dec_u128(x.num_trait_clauses as u128) + ",\"num_regions_outlive\":"@)); }
    write_usize(out, x.num_regions_outlive);
    proof { assert(out@ =~= old(out)@ + ("{\"num_region_params\":"@ + dec_u128(x.num_region_params as u128) + ",\"num_type_params\":"@ + dec_u128(x.num_type_params as u128) + ",\"num_const_generic_params\":"@ + dec_u128(x.num_const_generic_params as u128) + ",\"num_trait_clauses\":"@ + dec_u128(x.num_trait_clauses as u128) + ",\"num_regions_outlive\":"@ + dec_u128(x.num_regions_outlive as u128))); }
    out.append(",\"num_types_outlive\":");
    proof { assert(out@ =~= old(out)@ + ("{\"num_region_params\":"@ + dec_u128(x.num_region_params as u128) + ",\"num_type_params\":"@ + dec_u128(x.num_type_params as u128) + ",\"num_const_generic_params\":"@ + dec_u128(x.num_const_generic_params as u128) + ",\"num_trait_clauses\":"@ + dec_u128(x.num_trait_clauses as u128) + ",\"num_regions_outlive\":"@ + dec_u128(x.num_regions_outlive as u128) + ",\"num_types_outlive\":"@)); }
    write_usize(out, x.num_types_outlive);
    proof { assert(out@ =~= old(out)@ + ("{\"num_region_params\":"@ + dec_u128(x.num_region_params as u128) + ",\"num_type_params\":"@ + dec_u128(x.num_type_params as u128) + ",\"num_const_generic_params\":"@ + dec_u128(x.num_const_generic_params as u128) + ",\"num_trait_clauses\":"@ + dec_u128(x.num_trait_clauses as u128) + ",\"num_regions_outlive\":"@ + dec_u128(x.num_regions_outlive as u128) + ",\"num_types_outlive\":"@ + dec_u128(x.num_types_outlive as u128))); }
    out.append(",\"num_trait_type_constraints\":");
    proof { assert(out@ =~= old(out)@ + ("{\"num_region_params\":"@ + dec_u128(x.num_region_params as u128) + ",\"num_type_params\":"@ + dec_u128(x.num_type_params as u128) + ",\"num_const_generic_params\":"@ + dec_u128(x.num_const_generic_params as u128) + ",\"num_trait_clauses\":"@ + dec_u128(x.num_trait_clauses as u128) + ",\"num_regions_outlive\":"@ + dec_u128(x.num_regions_outlive as u128) + ",\"num_types_outlive\":"@ + dec_u128(x.num_types_outlive as u128) + ",\"num_trait_type_constraints\":"@)); }
    write_usize(out, x.num_trait_type_constraints);
    proof { assert(out@ =~= old(out)@ + ("{\"num_region_params\":"@ + dec_u128(x.num_region_params as u128) + ",\"num_type_params\":"@ + dec_u128(x.num_type_params as u128) + ",\"num_const_generic_params\":"@ + dec_u128(x.num_const_generic_params as u128) + ",\"num_trait_clauses\":"@ + dec_u128(x.num_trait_clauses as u128) + ",\"num_regions_outlive\":"@ + dec_u128(x.num_regions_outlive as u128) + ",\"num_types_outlive\":"@ + dec_u128(x.num_types_outlive as u128) + ",\"num_trait_type_constraints\":"@ + dec_u128(x.num_trait_type_constraints as u128))); }
    out.append("}");
    proof { assert(out@ =~= old(out)@ + ("{\"num_region_params\":"@ + dec_u128(x.num_region_params as u128) + ",\"num_type_params\":"@ + dec_u128(x.num_type_params as u128) + ",\"num_const_generic_params\":"@ + dec_u128(x.num_const_generic_params as u128) + ",\"num_trait_clauses\":"@ + dec_u128(x.num_trait_clauses as u128) + ",\"num_regions_outlive\":"@ + dec_u128(x.num_regions_outlive as u128) + ",\"num_types_outlive\":"@ + dec_u128(x.num_types_outlive as u128) + ",\"num_trait_type_constraints\":"@ + dec_u128(x.num_trait_type_constraints as u128) + "}"@)); }
    proof {
        assert(out@ =~= old(out)@ + json_params_info(*x));
    }
}

/// Append the serialization of this value.
#[verifier::rlimit(100)]
#[verifier::spinoff_prover]
pub fn write_closure_kind(out: &mut String, x: &ClosureKind)
    ensures
        final(out)@ == old(out)@ + json_closure_kind(*x),
    decreases *x,
{
    proof {
        reveal(json_closure_kind);
    }
    match x {
        ClosureKind::Fn => { out.append("\"Fn\""); },
        ClosureKind::FnMut => { out.append("\"FnMut\""); },
        ClosureKind::FnOnce => { out.append("\"FnOnce\""); },
    }
    proof {
        assert(out@ =~= old(out)@ + json_closure_kind(*x));
    }
}

/// Append the serialization of this value.
#[verifier::rlimit(100)]
#[verifier::spinoff_prover]
pub fn write_closure_info(out: &mut String, x: &ClosureInfo)
    ensures
        final(out)@ == old(out)@ + json_closure_info(*x),
    decreases *x,
{
    proof {
        reveal(json_closure_info);
    }
    out.append("{\"kind\":");
    proof { assert(out@ =~= old(out)@ + ("{\"kind\":"@)); }
    write_closure_kind(out, &x.kind);
    proof { assert(out@ =~= old(out)@ + ("{\"kind\":"@ + json_closure_kind(x.kind))); }
    out.append(",\"state\":");
    proof { assert(out@ =~= old(out)@ + ("{\"kind\":"@ + json_closure_kind(x.kind) + ",\"state\":"@)); }
    write_ty_array(out, &x.state);
    proof { assert(out@ =~= old(out)@ + ("{\"kind\":"@ + json_closure_kind(x.kind) + ",\"state\":"@ + ("["@ + json_ty_list(x.state@) + "]"@))); }
    out.append("}");
    proof { assert(out@ =~= old(out)@ + ("{\"kind\":"@ + json_closure_kind(x.kind) + ",\"state\":"@ + ("["@ + json_ty_list(x.state@) + "]"@) + "}"@)); }
    proof {
        assert(out@ =~= old(out)@ + json_closure_info(*x));
    }
}

/// Append the serialization of this value.
#[verifier::rlimit(100)]
#[verifier::spinoff_prover]
pub fn write_fun_sig(out: &mut String, x: &FunSig)
    ensures
        final(out)@ == old(out)@ + json_fun_sig(*x),
    decreases *x,
{
    proof {
        reveal(json_fun_sig);
    }
    out.append("{\"is_unsafe\":");
    proof { assert(out@ =~= old(out)@ + ("{\"is_unsafe\":"@)); }
    write_bool(out, x.is_unsafe);
    proof { assert(out@ =~= old(out)@ + ("{\"is_unsafe\":"@ + json_bool(x.is_unsafe))); }
    out.append(",\"is_closure\":");
    proof { assert(out@ =~= old(out)@ + ("{\"is_unsafe\":"@ + json_bool(x.is_unsafe) + ",\"is_closure\":"@)); }
    write_bool(out, x.is_closure);
    proof { assert(out@ =~= old(out)@ + ("{\"is_unsafe\":"@ + json_bool(x.is_unsafe) + ",\"is_closure\":"@ + json_bool(x.is_closure))); }
    out.append(",\"closure_info\":");
    proof { assert(out@ =~= old(out)@ + ("{\"is_unsafe\":"@ + json_bool(x.is_unsafe) + ",\"is_closure\":"@ + json_bool(x.is_closure) + ",\"closure_info\":"@)); }
    match &x.closure_info { Option::Some(v) => { write_closure_info(out, &(*v)); }, Option::None => { out.append("null"); }, }
    proof { assert(out@ =~= old(out)@ + ("{\"is_unsafe\":"@ + json_bool(x.is_unsafe) + ",\"is_closure\":"@ + json_bool(x.is_closure) + ",\"closure_info\":"@ + (match x.closure_info { Option::Some(v) => json_closure_info(v), Option::None => "null"@ }))); }
    out.append(",\"generics\":");
    proof { assert(out@ =~= old(out)@ + ("{\"is_unsafe\":"@ + json_bool(x.is_unsafe) + ",\"is_closure\":"@ + json_bool(x.is_closure) + ",\"closure_info\":"@ + (match x.closure_info { Option::Some(v) => json_closure_info(v), Option::None => "null"@ }) + ",\"generics\":"@)); }
    write_generic_params(out, &x.generics);
    proof { assert(out@ =~= old(out)@ + ("{\"is_unsafe\":"@ + json_bool(x.is_unsafe) + ",\"is_closure\":"@ + json_bool(x.is_closure) + ",\"closure_info\":"@ + (match x.closure_info { Option::Some(v) => json_closure_info(v), Option::None => "null"@ }) + ",\"generics\":"@ + json_generic_params(x.generics))); }
    out.append(",\"preds\":");
    proof { assert(out@ =~= old(out)@ + ("{\"is_unsafe\":"@ + json_bool(x.is_unsafe) + ",\"is_closure\":"@ + json_bool(x.is_closure) + ",\"closure_info\":"@ + (match x.closure_info { Option::Some(v) => json_closure_info(v), Option::None => "null"@ }) + ",\"generics\":"@ + json_generic_params(x.generics) + ",\"preds\":"@)); }
    write_predicates(out, &x.preds);
    proof { assert(out@ =~= old(out)@ + ("{\"is_unsafe\":"@ + json_bool(x.is_unsafe) + ",\"is_closure\":"@ + json_bool(x.is_closure) + ",\"closure_info\":"@ + (match x.closure_info { Option::Some(v) => json_closure_info(v), Option::None => "null"@ }) + ",\"generics\":"@ + json_generic_params(x.generics) + ",\"preds\":"@ + json_predicates(x.preds))); }
    out.append(",\"parent_params_info\":");
    proof { assert(out@ =~= old(out)@ + ("{\"is_unsafe\":"@ + json_bool(x.is_unsafe) + ",\"is_closure\":"@ + json_bool(x.is_closure) + ",\"closure_info\":"@ + (match x.closure_info { Option::Some(v) => json_closure_info(v), Option::None => "null"@ }) + ",\"generics\":"@ + json_generic_params(x.generics) + ",\"preds\":"@ + json_predicates(x.preds) + ",\"parent_params_info\":"@)); }
    match &x.parent_params_info { Option::Some(v) => { write_params_info(out, &(*v)); }, Option::None => { out.append("null"); }, }
    proof { assert(out@ =~= old(out)@ + ("{\"is_unsafe\":"@ + json_bool(x.is_unsafe) + ",\"is_closure\":"@ + json_bool(x.is_closure) + ",\"closure_info\":"@ + (match x.closure_info { Option::Some(v) => json_closure_info(v), Option::None => "null"@ }) + ",\"generics\":"@ + json_generic_params(x.generics) + ",\"preds\":"@ + json_predicates(x.preds) + ",\"parent_params_info\":"@ + (match x.parent_params_info { Option::Some(v) => json_params_info(v), Option::None => "null"@ }))); }
    out.append(",\"inputs\":");
    proof { assert(out@ =~= old(out)@ + ("{\"is_unsafe\":"@ + json_bool(x.is_unsafe) + ",\"is_closure\":"@ + json_bool(x.is_closure) + ",\"closure_info\":"@ + (match x.closure_info { Option::Some(v) => json_closure_info(v), Option::None => "null"@ }) + ",\"generics\":"@ + json_generic_params(x.generics) + ",\"preds\":"@ + json_predicates(x.preds) + ",\"parent_params_info\":"@ + (match x.parent_params_info { Option::Some(v) => json_params_info(v), Option::None => "null"@ }) + ",\"inputs\":"@)); }
    write_ty_array(out, &x.inputs);
    proof { assert(out@ =~= old(out)@ + ("{\"is_unsafe\":"@ + json_bool(x.is_unsafe) + ",\"is_closure\":"@ + json_bool(x.is_closure) + ",\"closure_info\":"@ + (match x.closure_info { Option::Some(v) => json_closure_info(v), Option::None => "null"@ }) + ",\"generics\":"@ + json_generic_params(x.generics) + ",\"preds\":"@ + json_predicates(x.preds) + ",\"parent_params_info\":"@ + (match x.parent_params_info { Option::Some(v) => json_params_info(v), Option::None => "null"@ }) + ",\"inputs\":"@ + ("["@ + json_ty_list(x.inputs@) + "]"@))); }
    out.append(",\"output\":");
    proof { assert(out@ =~= old(out)@ + ("{\"is_unsafe\":"@ + json_bool(x.is_unsafe) + ",\"is_closure\":"@ + json_bool(x.is_closure) + ",\"closure_info\":"@ + (match x.closure_info { Option::Some(v) => json_closure_info(v), Option::None => "null"@ }) + ",\"generics\":"@ + json_generic_params(x.generics) + ",\"preds\":"@ + json_predicates(x.preds) + ",\"parent_params_info\":"@ + (match x.parent_params_info { Option::Some(v) => json_params_info(v), Option::None => "null"@ }) + ",\"inputs\":"@ + ("["@ + json_ty_list(x.inputs@) + "]"@) + ",\"output\":"@)); }
    write_ty(out, &x.output);
    proof { assert(out@ =~= old(out)@ + ("{\"is_unsafe\":"@ + json_bool(x.is_unsafe) + ",\"is_closure\":"@ + json_bool(x.is_closure) + ",\"closure_info\":"@ + (match x.closure_info { Option::Some(v) => json_closure_info(v), Option::None => "null"@ }) + ",\"generics\":"@ + json_generic_params(x.generics) + ",\"preds\":"@ + json_predicates(x.preds) + ",\"parent_params_info\":"@ + (match x.parent_params_info { Option::Some(v) => json_params_info(v), Option::None => "null"@ }) + ",\"inputs\":"@ + ("["@ + json_ty_list(x.inputs@) + "]"@) + ",\"output\":"@ + json_ty(x.output))); }
    out.append("}");
    proof { assert(out@ =~= old(out)@ + ("{\"is_unsafe\":"@ + json_bool(x.is_unsafe) + ",\"is_closure\":"@ + json_bool(x.is_closure) + ",\"closure_info\":"@ + (match x.closure_info { Option::Some(v) => json_closure_info(v), Option::None => "null"@ }) + ",\"generics\":"@ + json_generic_params(x.generics) + ",\"preds\":"@ + json_predicates(x.preds) + ",\"parent_params_info\":"@ + (match x.parent_params_info { Option::Some(v) => json_params_info(v), Option::None => "null"@ }) + ",\"inputs\":"@ + ("["@ + json_ty_list(x.inputs@) + "]"@) + ",\"output\":"@ + json_ty(x.output) + "}"@)); }
    proof {
        assert(out@ =~= old(out)@ + json_fun_sig(*x));
    }
}

/// Append the serialization of this value.
#[verifier::rlimit(100)]
#[verifier::spinoff_prover]
pub fn write_trait_decl(out: &mut String, x: &TraitDecl)
    ensures
        final(out)@ == old(out)@ + json_trait_decl(*x),
    decreases *x,
{
    proof {
        reveal(json_trait_decl);
    }
    out.append("{\"def_id\":");
    proof { assert(out@ =~= old(out)@ + ("{\"def_id\":"@)); }
    write_usize(out, x.def_id.index);
    proof { assert(out@ =~= old(out)@ + ("{\"def_id\":"@ + dec_u128(x.def_id.index as u128))); }
    out.append(",\"item_meta\":");
    proof { assert(out@ =~= old(out)@ + ("{\"def_id\":"@ + dec_u128(x.def_id.index as u128) + ",\"item_meta\":"@)); }
    write_item_meta(out, &x.item_meta);
    proof { assert(out@ =~= old(out)@ + ("{\"def_id\":"@ + dec_u128(x.def_id.index as u128) + ",\"item_meta\":"@ + json_item_meta(x.item_meta))); }
    out.append(",\"name\":");
    proof { assert(out@ =~= old(out)@ + ("{\"def_id\":"@ + dec_u128(x.def_id.index as u128) + ",\"item_meta\":"@ + json_item_meta(x.item_meta) + ",\"name\":"@)); }
    write_name(out, &x.name);
    proof { assert(out@ =~= old(out)@ + ("{\"def_id\":"@ + dec_u128(x.def_id.index as u128) + ",\"item_meta\":"@ + json_item_meta(x.item_meta) + ",\"name\":"@ + json_name(x.name))); }
    out.append(",\"generics\":");
    proof { assert(out@ =~= old(out)@ + ("{\"def_id\":"@ + dec_u128(x.def_id.index as u128) + ",\"item_meta\":"@ + json_item_meta(x.item_meta) + ",\"name\":"@ + json_name(x.name) + ",\"generics\":"@)); }
    write_generic_params(out, &x.generics);
    proof { assert(out@ =~= old(out)@ + ("{\"def_id\":"@ + dec_u128(x.def_id.index as u128) + ",\"item_meta\":"@ + json_item_meta(x.item_meta) + ",\"name\":"@ + json_name(x.name) + ",\"generics\":"@ + json_generic_params(x.generics))); }
    out.append(",\"preds\":");
    proof { assert(out@ =~= old(out)@ + ("{\"def_id\":"@ + dec_u128(x.def_id.index as u128) + ",\"item_meta\":"@ + json_item_meta(x.item_meta) + ",\"name\":"@ + json_name(x.name) + ",\"generics\":"@ + json_generic_params(x.generics) + ",\"preds\":"@)); }
    write_predicates(out, &x.preds);
    proof { assert(out@ =~= old(out)@ + ("{\"def_id\":"@ + dec_u128(x.def_id.index as u128) + ",\"item_meta\":"@ + json_item_meta(x.item_meta) + ",\"name\":"@ + json_name(x.name) + ",\"generics\":"@ + json_generic_params(x.generics) + ",\"preds\":"@ + json_predicates(x.preds))); }
    out.append(",\"parent_clauses\":");
    proof { assert(out@ =~= old(out)@ + ("{\"def_id\":"@ + dec_u128(x.def_id.index as u128) + ",\"item_meta\":"@ + json_item_meta(x.item_meta) + ",\"name\":"@ + json_name(x.name) + ",\"generics\":"@ + json_generic_params(x.generics) + ",\"preds\":"@ + json_predicates(x.preds) + ",\"parent_clauses\":"@)); }
    write_trait_clause_array(out, &x.parent_clauses);
    proof { assert(out@ =~= old(out)@ + ("{\"def_id\":"@ + dec_u128(x.def_id.index as u128) + ",\"item_meta\":"@ + json_item_meta(x.item_meta) + ",\"name\":"@ + json_name(x.name) + ",\"generics\":"@ + json_generic_params(x.generics) + ",\"preds\":"@ + json_predicates(x.preds) + ",\"parent_clauses\":"@ + ("["@ + json_trait_clause_list(x.parent_clauses@) + "]"@))); }
    out.append("}");
    proof { assert(out@ =~= old(out)@ + ("{\"def_id\":"@ + dec_u128(x.def_id.index as u128) + ",\"item_meta\":"@ + json_item_meta(x.item_meta) + ",\"name\":"@ + json_name(x.name) + ",\"generics\":"@ + json_generic_params(x.generics) + ",\"preds\":"@ + json_predicates(x.preds) + ",\"parent_clauses\":"@ + ("["@ + json_trait_clause_list(x.parent_clauses@) + "]"@) + "}"@)); }
    proof {
        assert(out@ =~= old(out)@ + json_trait_decl(*x));
    }
}

/// Append the serialization of this list, as an array.
#[verifier::rlimit(100)]
#[verifier::spinoff_prover]
#[verifier::loop_isolation(false)]
pub fn write_trait_decl_array(out: &mut String, v: &Vec<TraitDecl>)
    ensures
        final(out)@ == old(out)@ + "["@ + json_trait_decl_list(v@) + "]"@,
    decreases *v,
{
    proof {
        reveal_with_fuel(json_trait_decl_list, 2);
    }
    out.append("[");
    let mut i: usize = 0;
    while i < v.len()
        invariant
            i <= v@.len(),
            out@ == old(out)@ + "["@ + json_trait_decl_list(v@.take(i as int)),
        decreases v@.len() - i,
    {
        if i > 0 {
            out.append(",");
        }
        write_trait_decl(out, &v[i]);
        proof {
            assert(v@.take(i + 1 as int).drop_last() =~= v@.take(i as int));
            assert(v@.take(i + 1 as int).last() == v@[i as int]);
            assert(out@ =~= old(out)@ + "["@ + json_trait_decl_list(v@.take(i + 1 as int)));
        }
        i += 1;
    }
    proof {
        assert(v@.take(v@.len() as int) =~= v@);
    }
    out.append("]");
    proof {
        assert(out@ =~= old(out)@ + "["@ + json_trait_decl_list(v@) + "]"@);
    }
}

/// Append the serialization of this value.
#[verifier::rlimit(100)]
#[verifier::spinoff_prover]
pub fn write_trait_impl(out: &mut String, x: &TraitImpl)
    ensures
        final(out)@ == old(out)@ + json_trait_impl(*x),
    decreases *x,
{
    proof {
        reveal(json_trait_impl);
    }
    out.append("{\"def_id\":");
    proof { assert(out@ =~= old(out)@ + ("{\"def_id\":"@)); }
    write_usize(out, x.def_id.index);
    proof { assert(out@ =~= old(out)@ + ("{\"def_id\":"@ + dec_u128(x.def_id.index as u128))); }
    out.append(",\"item_meta\":");
    proof { assert(out@ =~= old(out)@ + ("{\"def_id\":"@ + dec_u128(x.def_id.index as u128) + ",\"item_meta\":"@)); }
    write_item_meta(out, &x.item_meta);
    proof { assert(out@ =~= old(out)@ + ("{\"def_id\":"@ + dec_u128(x.def_id.index as u128) + ",\"item_meta\":"@ + json_item_meta(x.item_meta))); }
    out.append(",\"name\":");
    proof { assert(out@ =~= old(out)@ + ("{\"def_id\":"@ + dec_u128(x.def_id.index as u128) + ",\"item_meta\":"@ + json_item_meta(x.item_meta) + ",\"name\":"@)); }
    write_name(out, &x.name);
    proof { assert(out@ =~= old(out)@ + ("{\"def_id\":"@ + dec_u128(x.def_id.index as u128) + ",\"item_meta\":"@ + json_item_meta(x.item_meta) + ",\"name\":"@ + json_name(x.name))); }
    out.append(",\"impl_trait\":");
    proof { assert(out@ =~= old(out)@ + ("{\"def_id\":"@ + dec_u128(x.def_id.index as u128) + ",\"item_meta\":"@ + json_item_meta(x.item_meta) + ",\"name\":"@ + json_name(x.name) + ",\"impl_trait\":"@)); }
    write_trait_decl_ref(out, &x.impl_trait);
    proof { assert(out@ =~= old(out)@ + ("{\"def_id\":"@ + dec_u128(x.def_id.index as u128) + ",\"item_meta\":"@ + json_item_meta(x.item_meta) + ",\"name\":"@ + json_name(x.name) + ",\"impl_trait\":"@ + json_trait_decl_ref(x.impl_trait))); }
    out.append(",\"generics\":");
    proof { assert(out@ =~= old(out)@ + ("{\"def_id\":"@ + dec_u128(x.def_id.index as u128) + ",\"item_meta\":"@ + json_item_meta(x.item_meta) + ",\"name\":"@ + json_name(x.name) + ",\"impl_trait\":"@ + json_trait_decl_ref(x.impl_trait) + ",\"generics\":"@)); }
    write_generic_params(out, &x.generics);
    proof { assert(out@ =~= old(out)@ + ("{\"def_id\":"@ + dec_u128(x.def_id.index as u128) + ",\"item_meta\":"@ + json_item_meta(x.item_meta) + ",\"name\":"@ + json_name(x.name) + ",\"impl_trait\":"@ + json_trait_decl_ref(x.impl_trait) + ",\"generics\":"@ + json_generic_params(x.generics))); }
    out.append(",\"preds\":");
    proof { assert(out@ =~= old(out)@ + ("{\"def_id\":"@ + dec_u128(x.def_id.index as u128) + ",\"item_meta\":"@ + json_item_meta(x.item_meta) + ",\"name\":"@ + json_name(x.name) + ",\"impl_trait\":"@ + json_trait_decl_ref(x.impl_trait) + ",\"generics\":"@ + json_generic_params(x.generics) + ",\"preds\":"@)); }
    write_predicates(out, &x.preds);
    proof { assert(out@ =~= old(out)@ + ("{\"def_id\":"@ + dec_u128(x.def_id.index as u128) + ",\"item_meta\":"@ + json_item_meta(x.item_meta) + ",\"name\":"@ + json_name(x.name) + ",\"impl_trait\":"@ + json_trait_decl_ref(x.impl_trait) + ",\"generics\":"@ + json_generic_params(x.generics) + ",\"preds\":"@ + json_predicates(x.preds))); }
    out.append("}");
    proof { assert(out@ =~= old(out)@ + ("{\"def_id\":"@ + dec_u128(x.def_id.index as u128) + ",\"item_meta\":"@ + json_item_meta(x.item_meta) + ",\"name\":"@ + json_name(x.name) + ",\"impl_trait\":"@ + json_trait_decl_ref(x.impl_trait) + ",\"generics\":"@ + json_generic_params(x.generics) + ",\"preds\":"@ + json_predicates(x.preds) + "}"@)); }
    proof {
        assert(out@ =~= old(out)@ + json_trait_impl(*x));
    }
}

/// Append the serialization of this list, as an array.
#[verifier::rlimit(100)]
#[verifier::spinoff_prover]
#[verifier::loop_isolation(false)]
pub fn write_trait_impl_array(out: &mut String, v: &Vec<TraitImpl>)
    ensures
        final(out)@ == old(out)@ + "["@ + json_trait_impl_list(v@) + "]"@,
    decreases *v,
{
    proof {
        reveal_with_fuel(json_trait_impl_list, 2);
    }
    out.append("[");
    let mut i: usize = 0;
    while i < v.len()
        invariant
            i <= v@.len(),
            out@ == old(out)@ + "["@ + json_trait_impl_list(v@.take(i as int)),
        decreases v@.len() - i,
    {
        if i > 0 {
            out.append(",");
        }
        write_trait_impl(out, &v[i]);
        proof {
            assert(v@.take(i + 1 as int).drop_last() =~= v@.take(i as int));
            assert(v@.take(i + 1 as int).last() == v@[i as int]);
            assert(out@ =~= old(out)@ + "["@ + json_trait_impl_list(v@.take(i + 1 as int)));
        }
        i += 1;
    }
    proof {
        assert(v@.take(v@.len() as int) =~= v@);
    }
    out.append("]");
    proof {
        assert(out@ =~= old(out)@ + "["@ + json_trait_impl_list(v@) + "]"@);
    }
}

/// Append the serialization of this value.
#[verifier::rlimit(100)]
#[verifier::spinoff_prover]
pub fn write_projection_elem(out: &mut String, x: &ProjectionElem)
    ensures
        final(out)@ == old(out)@ + json_projection_elem(*x),
    decreases *x,
{
    proof {
        reveal(json_projection_elem);
    }
    match x {
        ProjectionElem::Deref => { out.append("\"Deref\""); },
        ProjectionElem::Field(a0) => {
            out.append("{\"Field\":");
            proof { assert(out@ =~= old(out)@ + ("{\"Field\":"@)); }
            write_usize(out, a0.index);
            proof { assert(out@ =~= old(out)@ + ("{\"Field\":"@ + dec_u128((*a0).index as u128))); }
            out.append("}");
            proof { assert(out@ =~= old(out)@ + ("{\"Field\":"@ + dec_u128((*a0).index as u128) + "}"@)); }
        },
    }
    proof {
        assert(out@ =~= old(out)@ + json_projection_elem(*x));
    }
}

/// Append the serialization of this list, as an array.
#[verifier::rlimit(100)]
#[verifier::spinoff_prover]
#[verifier::loop_isolation(false)]
pub fn write_projection_elem_array(out: &mut String, v: &Vec<ProjectionElem>)
    ensures
        final(out)@ == old(out)@ + "["@ + json_projection_elem_list(v@) + "]"@,
    decreases *v,
{
    proof {
        reveal_with_fuel(json_projection_elem_list, 2);
    }
    out.append("[");
    let mut i: usize = 0;
    while i < v.len()
        invariant
            i <= v@.len(),
            out@ == old(out)@ + "["@ + json_projection_elem_list(v@.take(i as int)),
        decreases v@.len() - i,
    {
        if i > 0 {
            out.append(",");
        }
        write_projection_elem(out, &v[i]);
        proof {
            assert(v@.take(i + 1 as int).drop_last() =~= v@.take(i as int));
            assert(v@.take(i + 1 as int).last() == v@[i as int]);
            assert(out@ =~= old(out)@ + "["@ + json_projection_elem_list(v@.take(i + 1 as int)));
        }
        i += 1;
    }
    proof {
        assert(v@.take(v@.len() as int) =~= v@);
    }
    out.append("]");
    proof {
        assert(out@ =~= old(out)@ + "["@ + json_projection_elem_list(v@) + "]"@);
    }
}

/// Append the serialization of this value.
#[verifier::rlimit(100)]
#[verifier::spinoff_prover]
pub fn write_place(out: &mut String, x: &Place)
    ensures
        final(out)@ == old(out)@ + json_place(*x),
    decreases *x,
{
    proof {
        reveal(json_place);
    }
    out.append("{\"var_id\":");
    proof { assert(out@ =~= old(out)@ + ("{\"var_id\":"@)); }
    write_usize(out, x.var_id.index);
    proof { assert(out@ =~= old(out)@ + ("{\"var_id\":"@ + dec_u128(x.var_id.index as u128))); }
    out.append(",\"projection\":");
    proof { assert(out@ =~= old(out)@ + ("{\"var_id\":"@ + dec_u128(x.var_id.index as u128) + ",\"projection\":"@)); }
    write_projection_elem_array(out, &x.projection);
    proof { assert(out@ =~= old(out)@ + ("{\"var_id\":"@ + dec_u128(x.var_id.index as u128) + ",\"projection\":"@ + ("["@ + json_projection_elem_list(x.projection@) + "]"@))); }
    out.append("}");
    proof { assert(out@ =~= old(out)@ + ("{\"var_id\":"@ + dec_u128(x.var_id.index as u128) + ",\"projection\":"@ + ("["@ + json_projection_elem_list(x.projection@) + "]"@) + "}"@)); }
    proof {
        assert(out@ =~= old(out)@ + json_place(*x));
    }
}

/// Append the serialization of this value.
#[verifier::rlimit(100)]
#[verifier::spinoff_prover]
pub fn write_operand(out: &mut String, x: &Operand)
    ensures
        final(out)@ == old(out)@ + json_operand(*x),
    decreases *x,
{
    proof {
        reveal(json_operand);
    }
    match x {
        Operand::Copy(a0) => {
            out.append("{\"Copy\":");
            proof { assert(out@ =~= old(out)@ + ("{\"Copy\":"@)); }
            write_place(out, a0);
            proof { assert(out@ =~= old(out)@ + ("{\"Copy\":"@ + json_place((*a0)))); }
            out.append("}");
            proof { assert(out@ =~= old(out)@ + ("{\"Copy\":"@ + json_place((*a0)) + "}"@)); }
        },
        Operand::Move(a0) => {
            out.append("{\"Move\":");
            proof { assert(out@ =~= old(out)@ + ("{\"Move\":"@)); }
            write_place(out, a0);
            proof { assert(out@ =~= old(out)@ + ("{\"Move\":"@ + json_place((*a0)))); }
            out.append("}");
            proof { assert(out@ =~= old(out)@ + ("{\"Move\":"@ + json_place((*a0)) + "}"@)); }
        },
        Operand::Const(a0) => {
            out.append("{\"Const\":");
            proof { assert(out@ =~= old(out)@ + ("{\"Const\":"@)); }
            write_literal(out, a0);
            proof { assert(out@ =~= old(out)@ + ("{\"Const\":"@ + json_literal((*a0)))); }
            out.append("}");
            proof { assert(out@ =~= old(out)@ + ("{\"Const\":"@ + json_literal((*a0)) + "}"@)); }
        },
    }
    proof {
        assert(out@ =~= old(out)@ + json_operand(*x));
    }
}

/// Append the serialization of this value.
#[verifier::rlimit(100)]
#[verifier::spinoff_prover]
pub fn write_rvalue(out: &mut String, x: &Rvalue)
    ensures
        final(out)@ == old(out)@ + json_rvalue(*x),
    decreases *x,
{
    proof {
        reveal(json_rvalue);
    }
    match x {
        Rvalue::Use(a0) => {
            out.append("{\"Use\":");
            proof { assert(out@ =~= old(out)@ + ("{\"Use\":"@)); }
            write_operand(out, a0);
            proof { assert(out@ =~= old(out)@ + ("{\"Use\":"@ + json_operand((*a0)))); }
            out.append("}");
            proof { assert(out@ =~= old(out)@ + ("{\"Use\":"@ + json_operand((*a0)) + "}"@)); }
        },
        Rvalue::Ref(a0, a1) => {
            out.append("{\"Ref\":");
            proof { assert(out@ =~= old(out)@ + ("{\"Ref\":"@)); }
            out.append("[");
            proof { assert(out@ =~= old(out)@ + ("{\"Ref\":"@ + "["@)); }
            write_place(out, a0);
            proof { assert(out@ =~= old(out)@ + ("{\"Ref\":"@ + "["@ + json_place((*a0)))); }
            out.append(",");
            proof { assert(out@ =~= old(out)@ + ("{\"Ref\":"@ + "["@ + json_place((*a0)) + ","@)); }
            write_ref_kind(out, a1);
            proof { assert(out@ =~= old(out)@ + ("{\"Ref\":"@ + "["@ + json_place((*a0)) + ","@ + json_ref_kind((*a1)))); }
            out.append("]");
            proof { assert(out@ =~= old(out)@ + ("{\"Ref\":"@ + "["@ + json_place((*a0)) + ","@ + json_ref_kind((*a1)) + "]"@)); }
            out.append("}");
            proof { assert(out@ =~= old(out)@ + ("{\"Ref\":"@ + "["@ + json_place((*a0)) + ","@ + json_ref_kind((*a1)) + "]"@ + "}"@)); }
        },
        Rvalue::Discriminant(a0, a1) => {
            out.append("{\"Discriminant\":");
            proof { assert(out@ =~= old(out)@ + ("{\"Discriminant\":"@)); }
            out.append("[");
            proof { assert(out@ =~= old(out)@ + ("{\"Discriminant\":"@ + "["@)); }
            write_place(out, a0);
            proof { assert(out@ =~= old(out)@ + ("{\"Discriminant\":"@ + "["@ + json_place((*a0)))); }
            out.append(",");
            proof { assert(out@ =~= old(out)@ + ("{\"Discriminant\":"@ + "["@ + json_place((*a0)) + ","@)); }
            write_usize(out, a1.index);
            proof { assert(out@ =~= old(out)@ + ("{\"Discriminant\":"@ + "["@ + json_place((*a0)) + ","@ + dec_u128((*a1).index as u128))); }
            out.append("]");
            proof { assert(out@ =~= old(out)@ + ("{\"Discriminant\":"@ + "["@ + json_place((*a0)) + ","@ + dec_u128((*a1).index as u128) + "]"@)); }
            out.append("}");
            proof { assert(out@ =~= old(out)@ + ("{\"Discriminant\":"@ + "["@ + json_place((*a0)) + ","@ + dec_u128((*a1).index as u128) + "]"@ + "}"@)); }
        },
    }
    proof {
        assert(out@ =~= old(out)@ + json_rvalue(*x));
    }
}

/// Append the serialization of this list, as an array.
#[verifier::rlimit(100)]
#[verifier::spinoff_prover]
#[verifier::loop_isolation(false)]
pub fn write_scalar_value_array(out: &mut String, v: &Vec<ScalarValue>)
    ensures
        final(out)@ == old(out)@ + "["@ + json_scalar_value_list(v@) + "]"@,
    decreases *v,
{
    proof {
        reveal_with_fuel(json_scalar_value_list, 2);
    }
    out.append("[");
    let mut i: usize = 0;
    while i < v.len()
        invariant
            i <= v@.len(),
            out@ == old(out)@ + "["@ + json_scalar_value_list(v@.take(i as int)),
        decreases v@.len() - i,
    {
        if i > 0 {
            out.append(",");
        }
        write_scalar_value(out, &v[i]);
        proof {
            assert(v@.take(i + 1 as int).drop_last() =~= v@.take(i as int));
            assert(v@.take(i + 1 as int).last() == v@[i as int]);
            assert(out@ =~= old(out)@ + "["@ + json_scalar_value_list(v@.take(i + 1 as int)));
        }
        i += 1;
    }
    proof {
        assert(v@.take(v@.len() as int) =~= v@);
    }
    out.append("]");
    proof {
        assert(out@ =~= old(out)@ + "["@ + json_scalar_value_list(v@) + "]"@);
    }
}

/// Append the serialization of this list, as an array.
#[verifier::rlimit(100)]
#[verifier::spinoff_prover]
#[verifier::loop_isolation(false)]
pub fn write_variant_id_array(out: &mut String, v: &Vec<VariantId>)
    ensures
        final(out)@ == old(out)@ + "["@ + json_variant_id_list(v@) + "]"@,
    decreases *v,
{
    proof {
        reveal_with_fuel(json_variant_id_list, 2);
    }
    out.append("[");
    let mut i: usize = 0;
    while i < v.len()
        invariant
            i <= v@.len(),
            out@ == old(out)@ + "["@ + json_variant_id_list(v@.take(i as int)),
        decreases v@.len() - i,
    {
        if i > 0 {
            out.append(",");
        }
        write_usize(out, v[i].index);
        proof {
            assert(v@.take(i + 1 as int).drop_last() =~= v@.take(i as int));
            assert(v@.take(i + 1 as int).last() == v@[i as int]);
            assert(out@ =~= old(out)@ + "["@ + json_variant_id_list(v@.take(i + 1 as int)));
        }
        i += 1;
    }
    proof {
        assert(v@.take(v@.len() as int) =~= v@);
    }
    out.append("]");
    proof {
        assert(out@ =~= old(out)@ + "["@ + json_variant_id_list(v@) + "]"@);
    }
}

/// Append the serialization of this value.
#[verifier::rlimit(100)]
#[verifier::spinoff_prover]
pub fn write_int_arm(out: &mut String, x: &(Vec<ScalarValue>, Statement))
    ensures
        final(out)@ == old(out)@ + json_int_arm(*x),
    decreases *x,
{
    proof {
        reveal(json_int_arm);
    }
    out.append("[");
    proof { assert(out@ =~= old(out)@ + ("["@)); }
    write_scalar_value_array(out, &x.0);
    proof { assert(out@ =~= old(out)@ + ("["@ + ("["@ + json_scalar_value_list(x.0@) + "]"@))); }
    out.append(",");
    proof { assert(out@ =~= old(out)@ + ("["@ + ("["@ + json_scalar_value_list(x.0@) + "]"@) + ","@)); }
    write_statement(out, &x.1);
    proof { assert(out@ =~= old(out)@ + ("["@ + ("["@ + json_scalar_value_list(x.0@) + "]"@) + ","@ + json_statement(x.1))); }
    out.append("]");
    proof { assert(out@ =~= old(out)@ + ("["@ + ("["@ + json_scalar_value_list(x.0@) + "]"@) + ","@ + json_statement(x.1) + "]"@)); }
    proof {
        assert(out@ =~= old(out)@ + json_int_arm(*x));
    }
}

/// Append the serialization of this list, as an array.
#[verifier::rlimit(100)]
#[verifier::spinoff_prover]
#[verifier::loop_isolation(false)]
pub fn write_int_arm_array(out: &mut String, v: &Vec<(Vec<ScalarValue>, Statement)>)
    ensures
        final(out)@ == old(out)@ + "["@ + json_int_arm_list(v@) + "]"@,
    decreases *v,
{
    proof {
        reveal_with_fuel(json_int_arm_list, 2);
    }
    out.append("[");
    let mut i: usize = 0;
    while i < v.len()
        invariant
            i <= v@.len(),
            out@ == old(out)@ + "["@ + json_int_arm_list(v@.take(i as int)),
        decreases v@.len() - i,
    {
        if i > 0 {
            out.append(",");
        }
        write_int_arm(out, &v[i]);
        proof {
            assert(v@.take(i + 1 as int).drop_last() =~= v@.take(i as int));
            assert(v@.take(i + 1 as int).last() == v@[i as int]);
            assert(out@ =~= old(out)@ + "["@ + json_int_arm_list(v@.take(i + 1 as int)));
        }
        i += 1;
    }
    proof {
        assert(v@.take(v@.len() as int) =~= v@);
    }
    out.append("]");
    proof {
        assert(out@ =~= old(out)@ + "["@ + json_int_arm_list(v@) + "]"@);
    }
}

/// Append the serialization of this value.
#[verifier::rlimit(100)]
#[verifier::spinoff_prover]
pub fn write_match_arm(out: &mut String, x: &(Vec<VariantId>, Statement))
    ensures
        final(out)@ == old(out)@ + json_match_arm(*x),
    decreases *x,
{
    proof {
        reveal(json_match_arm);
    }
    out.append("[");
    proof { assert(out@ =~= old(out)@ + ("["@)); }
    write_variant_id_array(out, &x.0);
    proof { assert(out@ =~= old(out)@ + ("["@ + ("["@ + json_variant_id_list(x.0@) + "]"@))); }
    out.append(",");
    proof { assert(out@ =~= old(out)@ + ("["@ + ("["@ + json_variant_id_list(x.0@) + "]"@) + ","@)); }
    write_statement(out, &x.1);
    proof { assert(out@ =~= old(out)@ + ("["@ + ("["@ + json_variant_id_list(x.0@) + "]"@) + ","@ + json_statement(x.1))); }
    out.append("]");
    proof { assert(out@ =~= old(out)@ + ("["@ + ("["@ + json_variant_id_list(x.0@) + "]"@) + ","@ + json_statement(x.1) + "]"@)); }
    proof {
        assert(out@ =~= old(out)@ + json_match_arm(*x));
    }
}

/// Append the serialization of this list, as an array.
#[verifier::rlimit(100)]
#[verifier::spinoff_prover]
#[verifier::loop_isolation(false)]
pub fn write_match_arm_array(out: &mut String, v: &Vec<(Vec<VariantId>, Statement)>)
    ensures
        final(out)@ == old(out)@ + "["@ + json_match_arm_list(v@) + "]"@,
    decreases *v,
{
    proof {
        reveal_with_fuel(json_match_arm_list, 2);
    }
    out.append("[");
    let mut i: usize = 0;
    while i < v.len()
        invariant
            i <= v@.len(),
            out@ == old(out)@ + "["@ + json_match_arm_list(v@.take(i as int)),
        decreases v@.len() - i,
    {
        if i > 0 {
            out.append(",");
        }
        write_match_arm(out, &v[i]);
        proof {
            assert(v@.take(i + 1 as int).drop_last() =~= v@.take(i as int));
            assert(v@.take(i + 1 as int).last() == v@[i as int]);
            assert(out@ =~= old(out)@ + "["@ + json_match_arm_list(v@.take(i + 1 as int)));
        }
        i += 1;
    }
    proof {
        assert(v@.take(v@.len() as int) =~= v@);
    }
    out.append("]");
    proof {
        assert(out@ =~= old(out)@ + "["@ + json_match_arm_list(v@) + "]"@);
    }
}

/// Append the serialization of this value.
#[verifier::rlimit(100)]
#[verifier::spinoff_prover]
pub fn write_switch(out: &mut String, x: &Switch)
    ensures
        final(out)@ == old(out)@ + json_switch(*x),
    decreases *x,
{
    proof {
        reveal(json_switch);
    }
    match x {
        Switch::If(a0, a1, a2) => {
            out.append("{\"If\":");
            proof { assert(out@ =~= old(out)@ + ("{\"If\":"@)); }
            out.append("[");
            proof { assert(out@ =~= old(out)@ + ("{\"If\":"@ + "["@)); }
            write_operand(out, a0);
            proof { assert(out@ =~= old(out)@ + ("{\"If\":"@ + "["@ + json_operand((*a0)))); }
            out.append(",");
            proof { assert(out@ =~= old(out)@ + ("{\"If\":"@ + "["@ + json_operand((*a0)) + ","@)); }
            write_statement(out, &(**a1));
            proof { assert(out@ =~= old(out)@ + ("{\"If\":"@ + "["@ + json_operand((*a0)) + ","@ + json_statement((*(*a1))))); }
            out.append(",");
            proof { assert(out@ =~= old(out)@ + ("{\"If\":"@ + "["@ + json_operand((*a0)) + ","@ + json_statement((*(*a1))) + ","@)); }
            write_statement(out, &(**a2));
            proof { assert(out@ =~= old(out)@ + ("{\"If\":"@ + "["@ + json_operand((*a0)) + ","@ + json_statement((*(*a1))) + ","@ + json_statement((*(*a2))))); }
            out.append("]");
            proof { assert(out@ =~= old(out)@ + ("{\"If\":"@ + "["@ + json_operand((*a0)) + ","@ + json_statement((*(*a1))) + ","@ + json_statement((*(*a2))) + "]"@)); }
            out.append("}");
            proof { assert(out@ =~= old(out)@ + ("{\"If\":"@ + "["@ + json_operand((*a0)) + ","@ + json_statement((*(*a1))) + ","@ + json_statement((*(*a2))) + "]"@ + "}"@)); }
        },
        Switch::SwitchInt(a0, a1, a2, a3) => {
            out.append("{\"SwitchInt\":");
            proof { assert(out@ =~= old(out)@ + ("{\"SwitchInt\":"@)); }
            out.append("[");
            proof { assert(out@ =~= old(out)@ + ("{\"SwitchInt\":"@ + "["@)); }
            write_operand(out, a0);
            proof { assert(out@ =~= old(out)@ + ("{\"SwitchInt\":"@ + "["@ + json_operand((*a0)))); }
            out.append(",");
            proof { assert(out@ =~= old(out)@ + ("{\"SwitchInt\":"@ + "["@ + json_operand((*a0)) + ","@)); }
            write_integer_ty(out, a1);
            proof { assert(out@ =~= old(out)@ + ("{\"SwitchInt\":"@ + "["@ + json_operand((*a0)) + ","@ + json_integer_ty((*a1)))); }
            out.append(",");
            proof { assert(out@ =~= old(out)@ + ("{\"SwitchInt\":"@ + "["@ + json_operand((*a0)) + ","@ + json_integer_ty((*a1)) + ","@)); }
            write_int_arm_array(out, a2);
            proof { assert(out@ =~= old(out)@ + ("{\"SwitchInt\":"@ + "["@ + json_operand((*a0)) + ","@ + json_integer_ty((*a1)) + ","@ + ("["@ + json_int_arm_list((*a2)@) + "]"@))); }
            out.append(",");
            proof { assert(out@ =~= old(out)@ + ("{\"SwitchInt\":"@ + "["@ + json_operand((*a0)) + ","@ + json_integer_ty((*a1)) + ","@ + ("["@ + json_int_arm_list((*a2)@) + "]"@) + ","@)); }
            write_statement(out, &(**a3));
            proof { assert(out@ =~= old(out)@ + ("{\"SwitchInt\":"@ + "["@ + json_operand((*a0)) + ","@ + json_integer_ty((*a1)) + ","@ + ("["@ + json_int_arm_list((*a2)@) + "]"@) + ","@ + json_statement((*(*a3))))); }
            out.append("]");
            proof { assert(out@ =~= old(out)@ + ("{\"SwitchInt\":"@ + "["@ + json_operand((*a0)) + ","@ + json_integer_ty((*a1)) + ","@ + ("["@ + json_int_arm_list((*a2)@) + "]"@) + ","@ + json_statement((*(*a3))) + "]"@)); }
            out.append("}");
            proof { assert(out@ =~= old(out)@ + ("{\"SwitchInt\":"@ + "["@ + json_operand((*a0)) + ","@ + json_integer_ty((*a1)) + ","@ + ("["@ + json_int_arm_list((*a2)@) + "]"@) + ","@ + json_statement((*(*a3))) + "]"@ + "}"@)); }
        },
        Switch::Match(a0, a1, a2) => {
            out.append("{\"Match\":");
            proof { assert(out@ =~= old(out)@ + ("{\"Match\":"@)); }
            out.append("[");
            proof { assert(out@ =~= old(out)@ + ("{\"Match\":"@ + "["@)); }
            write_place(out, a0);
            proof { assert(out@ =~= old(out)@ + ("{\"Match\":"@ + "["@ + json_place((*a0)))); }
            out.append(",");
            proof { assert(out@ =~= old(out)@ + ("{\"Match\":"@ + "["@ + json_place((*a0)) + ","@)); }
            write_match_arm_array(out, a1);
            proof { assert(out@ =~= old(out)@ + ("{\"Match\":"@ + "["@ + json_place((*a0)) + ","@ + ("["@ + json_match_arm_list((*a1)@) + "]"@))); }
            out.append(",");
            proof { assert(out@ =~= old(out)@ + ("{\"Match\":"@ + "["@ + json_place((*a0)) + ","@ + ("["@ + json_match_arm_list((*a1)@) + "]"@) + ","@)); }
            match a2 { Option::Some(v) => { write_statement(out, &(*(*v))); }, Option::None => { out.append("null"); }, }
            proof { assert(out@ =~= old(out)@ + ("{\"Match\":"@ + "["@ + json_place((*a0)) + ","@ + ("["@ + json_match_arm_list((*a1)@) + "]"@) + ","@ + (match (*a2) { Option::Some(v) => json_statement((*v)), Option::None => "null"@ }))); }
            out.append("]");
            proof { assert(out@ =~= old(out)@ + ("{\"Match\":"@ + "["@ + json_place((*a0)) + ","@ + ("["@ + json_match_arm_list((*a1)@) + "]"@) + ","@ + (match (*a2) { Option::Some(v) => json_statement((*v)), Option::None => "null"@ }) + "]"@)); }
            out.append("}");
            proof { assert(out@ =~= old(out)@ + ("{\"Match\":"@ + "["@ + json_place((*a0)) + ","@ + ("["@ + json_match_arm_list((*a1)@) + "]"@) + ","@ + (match (*a2) { Option::Some(v) => json_statement((*v)), Option::None => "null"@ }) + "]"@ + "}"@)); }
        },
    }
    proof {
        assert(out@ =~= old(out)@ + json_switch(*x));
    }
}

/// Append the serialization of this value.
#[verifier::rlimit(100)]
#[verifier::spinoff_prover]
pub fn write_raw_statement(out: &mut String, x: &RawStatement)
    ensures
        final(out)@ == old(out)@ + json_raw_statement(*x),
    decreases *x,
{
    proof {
        reveal(json_raw_statement);
    }
    match x {
        RawStatement::Assign(a0, a1) => {
            out.append("{\"Assign\":");
            proof { assert(out@ =~= old(out)@ + ("{\"Assign\":"@)); }
            out.append("[");
            proof { assert(out@ =~= old(out)@ + ("{\"Assign\":"@ + "["@)); }
            write_place(out, a0);
            proof { assert(out@ =~= old(out)@ + ("{\"Assign\":"@ + "["@ + json_place((*a0)))); }
            out.append(",");
            proof { assert(out@ =~= old(out)@ + ("{\"Assign\":"@ + "["@ + json_place((*a0)) + ","@)); }
            write_rvalue(out, a1);
            proof { assert(out@ =~= old(out)@ + ("{\"Assign\":"@ + "["@ + json_place((*a0)) + ","@ + json_rvalue((*a1)))); }
            out.append("]");
            proof { assert(out@ =~= old(out)@ + ("{\"Assign\":"@ + "["@ + json_place((*a0)) + ","@ + json_rvalue((*a1)) + "]"@)); }
            out.append("}");
            proof { assert(out@ =~= old(out)@ + ("{\"Assign\":"@ + "["@ + json_place((*a0)) + ","@ + json_rvalue((*a1)) + "]"@ + "}"@)); }
        },
        RawStatement::Drop(a0) => {
            out.append("{\"Drop\":");
            proof { assert(out@ =~= old(out)@ + ("{\"Drop\":"@)); }
            write_place(out, a0);
            proof { assert(out@ =~= old(out)@ + ("{\"Drop\":"@ + json_place((*a0)))); }
            out.append("}");
            proof { assert(out@ =~= old(out)@ + ("{\"Drop\":"@ + json_place((*a0)) + "}"@)); }
        },
        RawStatement::Nop => { out.append("\"Nop\""); },
        RawStatement::Return => { out.append("\"Return\""); },
        RawStatement::Sequence(a0, a1) => {
            out.append("{\"Sequence\":");
            proof { assert(out@ =~= old(out)@ + ("{\"Sequence\":"@)); }
            out.append("[");
            proof { assert(out@ =~= old(out)@ + ("{\"Sequence\":"@ + "["@)); }
            write_statement(out, &(**a0));
            proof { assert(out@ =~= old(out)@ + ("{\"Sequence\":"@ + "["@ + json_statement((*(*a0))))); }
            out.append(",");
            proof { assert(out@ =~= old(out)@ + ("{\"Sequence\":"@ + "["@ + json_statement((*(*a0))) + ","@)); }
            write_statement(out, &(**a1));
            proof { assert(out@ =~= old(out)@ + ("{\"Sequence\":"@ + "["@ + json_statement((*(*a0))) + ","@ + json_statement((*(*a1))))); }
            out.append("]");
            proof { assert(out@ =~= old(out)@ + ("{\"Sequence\":"@ + "["@ + json_statement((*(*a0))) + ","@ + json_statement((*(*a1))) + "]"@)); }
            out.append("}");
            proof { assert(out@ =~= old(out)@ + ("{\"Sequence\":"@ + "["@ + json_statement((*(*a0))) + ","@ + json_statement((*(*a1))) + "]"@ + "}"@)); }
        },
        RawStatement::Switch(a0) => {
            out.append("{\"Switch\":");
            proof { assert(out@ =~= old(out)@ + ("{\"Switch\":"@)); }
            write_switch(out, a0);
            proof { assert(out@ =~= old(out)@ + ("{\"Switch\":"@ + json_switch((*a0)))); }
            out.append("}");
            proof { assert(out@ =~= old(out)@ + ("{\"Switch\":"@ + json_switch((*a0)) + "}"@)); }
        },
        RawStatement::Loop(a0) => {
            out.append("{\"Loop\":");
            proof { assert(out@ =~= old(out)@ + ("{\"Loop\":"@)); }
            write_statement(out, &(**a0));
            proof { assert(out@ =~= old(out)@ + ("{\"Loop\":"@ + json_statement((*(*a0))))); }
            out.append("}");
            proof { assert(out@ =~= old(out)@ + ("{\"Loop\":"@ + json_statement((*(*a0))) + "}"@)); }
        },
    }
    proof {
        assert(out@ =~= old(out)@ + json_raw_statement(*x));
    }
}

/// Append the serialization of this value.
#[verifier::rlimit(100)]
#[verifier::spinoff_prover]
pub fn write_statement(out: &mut String, x: &Statement)
    ensures
        final(out)@ == old(out)@ + json_statement(*x),
    decreases *x,
{
    proof {
        reveal(json_statement);
    }
    out.append("{\"meta\":");
    proof { assert(out@ =~= old(out)@ + ("{\"meta\":"@)); }
    write_meta(out, &x.meta);
    proof { assert(out@ =~= old(out)@ + ("{\"meta\":"@ + json_meta(x.meta))); }
    out.append(",\"content\":");
    proof { assert(out@ =~= old(out)@ + ("{\"meta\":"@ + json_meta(x.meta) + ",\"content\":"@)); }
    write_raw_statement(out, &x.content);
    proof { assert(out@ =~= old(out)@ + ("{\"meta\":"@ + json_meta(x.meta) + ",\"content\":"@ + json_raw_statement(x.content))); }
    out.append("}");
    proof { assert(out@ =~= old(out)@ + ("{\"meta\":"@ + json_meta(x.meta) + ",\"content\":"@ + json_raw_statement(x.content) + "}"@)); }
    proof {
        assert(out@ =~= old(out)@ + json_statement(*x));
    }
}

/// Append the serialization of this value.
#[verifier::rlimit(100)]
#[verifier::spinoff_prover]
pub fn write_fun_decl(out: &mut String, x: &FunDecl)
    ensures
        final(out)@ == old(out)@ + json_fun_decl(*x),
    decreases *x,
{
    proof {
        reveal(json_fun_decl);
    }
    out.append("{\"def_id\":");
    proof { assert(out@ =~= old(out)@ + ("{\"def_id\":"@)); }
    write_usize(out, x.def_id.index);
    proof { assert(out@ =~= old(out)@ + ("{\"def_id\":"@ + dec_u128(x.def_id.index as u128))); }
    out.append(",\"item_meta\":");
    proof { assert(out@ =~= old(out)@ + ("{\"def_id\":"@ + dec_u128(x.def_id.index as u128) + ",\"item_meta\":"@)); }
    write_item_meta(out, &x.item_meta);
    proof { assert(out@ =~= old(out)@ + ("{\"def_id\":"@ + dec_u128(x.def_id.index as u128) + ",\"item_meta\":"@ + json_item_meta(x.item_meta))); }
    out.append(",\"is_local\":");
    proof { assert(out@ =~= old(out)@ + ("{\"def_id\":"@ + dec_u128(x.def_id.index as u128) + ",\"item_meta\":"@ + json_item_meta(x.item_meta) + ",\"is_local\":"@)); }
    write_bool(out, x.is_local);
    proof { assert(out@ =~= old(out)@ + ("{\"def_id\":"@ + dec_u128(x.def_id.index as u128) + ",\"item_meta\":"@ + json_item_meta(x.item_meta) + ",\"is_local\":"@ + json_bool(x.is_local))); }
    out.append(",\"name\":");
    proof { assert(out@ =~= old(out)@ + ("{\"def_id\":"@ + dec_u128(x.def_id.index as u128) + ",\"item_meta\":"@ + json_item_meta(x.item_meta) + ",\"is_local\":"@ + json_bool(x.is_local) + ",\"name\":"@)); }
    write_name(out, &x.name);
    proof { assert(out@ =~= old(out)@ + ("{\"def_id\":"@ + dec_u128(x.def_id.index as u128) + ",\"item_meta\":"@ + json_item_meta(x.item_meta) + ",\"is_local\":"@ + json_bool(x.is_local) + ",\"name\":"@ + json_name(x.name))); }
    out.append(",\"signature\":");
    proof { assert(out@ =~= old(out)@ + ("{\"def_id\":"@ + dec_u128(x.def_id.index as u128) + ",\"item_meta\":"@ + json_item_meta(x.item_meta) + ",\"is_local\":"@ + json_bool(x.is_local) + ",\"name\":"@ + json_name(x.name) + ",\"signature\":"@)); }
    write_fun_sig(out, &x.signature);
    proof { assert(out@ =~= old(out)@ + ("{\"def_id\":"@ + dec_u128(x.def_id.index as u128) + ",\"item_meta\":"@ + json_item_meta(x.item_meta) + ",\"is_local\":"@ + json_bool(x.is_local) + ",\"name\":"@ + json_name(x.name) + ",\"signature\":"@ + json_fun_sig(x.signature))); }
    out.append(",\"body\":");
    proof { assert(out@ =~= old(out)@ + ("{\"def_id\":"@ + dec_u128(x.def_id.index as u128) + ",\"item_meta\":"@ + json_item_meta(x.item_meta) + ",\"is_local\":"@ + json_bool(x.is_local) + ",\"name\":"@ + json_name(x.name) + ",\"signature\":"@ + json_fun_sig(x.signature) + ",\"body\":"@)); }
    match &x.body { Option::Some(v) => { write_statement(out, &(*v)); }, Option::None => { out.append("null"); }, }
    proof { assert(out@ =~= old(out)@ + ("{\"def_id\":"@ + dec_u128(x.def_id.index as u128) + ",\"item_meta\":"@ + json_item_meta(x.item_meta) + ",\"is_local\":"@ + json_bool(x.is_local) + ",\"name\":"@ + json_name(x.name) + ",\"signature\":"@ + json_fun_sig(x.signature) + ",\"body\":"@ + (match x.body { Option::Some(v) => json_statement(v), Option::None => "null"@ }))); }
    out.append("}");
    proof { assert(out@ =~= old(out)@ + ("{\"def_id\":"@ + dec_u128(x.def_id.index as u128) + ",\"item_meta\":"@ + json_item_meta(x.item_meta) + ",\"is_local\":"@ + json_bool(x.is_local) + ",\"name\":"@ + json_name(x.name) + ",\"signature\":"@ + json_fun_sig(x.signature) + ",\"body\":"@ + (match x.body { Option::Some(v) => json_statement(v), Option::None => "null"@ }) + "}"@)); }
    proof {
        assert(out@ =~= old(out)@ + json_fun_decl(*x));
    }
}

/// Append the serialization of this list, as an array.
#[verifier::rlimit(100)]
#[verifier::spinoff_prover]
#[verifier::loop_isolation(false)]
pub fn write_fun_decl_array(out: &mut String, v: &Vec<FunDecl>)
    ensures
        final(out)@ == old(out)@ + "["@ + json_fun_decl_list(v@) + "]"@,
    decreases *v,
{
    proof {
        reveal_with_fuel(json_fun_decl_list, 2);
    }
    out.append("[");
    let mut i: usize = 0;
    while i < v.len()
        invariant
            i <= v@.len(),
            out@ == old(out)@ + "["@ + json_fun_decl_list(v@.take(i as int)),
        decreases v@.len() - i,
    {
        if i > 0 {
            out.append(",");
        }
        write_fun_decl(out, &v[i]);
        proof {
            assert(v@.take(i + 1 as int).drop_last() =~= v@.take(i as int));
            assert(v@.take(i + 1 as int).last() == v@[i as int]);
            assert(out@ =~= old(out)@ + "["@ + json_fun_decl_list(v@.take(i + 1 as int)));
        }
        i += 1;
    }
    proof {
        assert(v@.take(v@.len() as int) =~= v@);
    }
    out.append("]");
    proof {
        assert(out@ =~= old(out)@ + "["@ + json_fun_decl_list(v@) + "]"@);
    }
}

/// Append the serialization of this value.
#[verifier::rlimit(100)]
#[verifier::spinoff_prover]
pub fn write_global_decl(out: &mut String, x: &GlobalDecl)
    ensures
        final(out)@ == old(out)@ + json_global_decl(*x),
    decreases *x,
{
    proof {
        reveal(json_global_decl);
    }
    out.append("{\"def_id\":");
    proof { assert(out@ =~= old(out)@ + ("{\"def_id\":"@)); }
    write_usize(out, x.def_id.index);
    proof { assert(out@ =~= old(out)@ + ("{\"def_id\":"@ + dec_u128(x.def_id.index as u128))); }
    out.append(",\"item_meta\":");
    proof { assert(out@ =~= old(out)@ + ("{\"def_id\":"@ + dec_u128(x.def_id.index as u128) + ",\"item_meta\":"@)); }
    write_item_meta(out, &x.item_meta);
    proof { assert(out@ =~= old(out)@ + ("{\"def_id\":"@ + dec_u128(x.def_id.index as u128) + ",\"item_meta\":"@ + json_item_meta(x.item_meta))); }
    out.append(",\"is_local\":");
    proof { assert(out@ =~= old(out)@ + ("{\"def_id\":"@ + dec_u128(x.def_id.index as u128) + ",\"item_meta\":"@ + json_item_meta(x.item_meta) + ",\"is_local\":"@)); }
    write_bool(out, x.is_local);
    proof { assert(out@ =~= old(out)@ + ("{\"def_id\":"@ + dec_u128(x.def_id.index as u128) + ",\"item_meta\":"@ + json_item_meta(x.item_meta) + ",\"is_local\":"@ + json_bool(x.is_local))); }
    out.append(",\"name\":");
    proof { assert(out@ =~= old(out)@ + ("{\"def_id\":"@ + dec_u128(x.def_id.index as u128) + ",\"item_meta\":"@ + json_item_meta(x.item_meta) + ",\"is_local\":"@ + json_bool(x.is_local) + ",\"name\":"@)); }
    write_name(out, &x.name);
    proof { assert(out@ =~= old(out)@ + ("{\"def_id\":"@ + dec_u128(x.def_id.index as u128) + ",\"item_meta\":"@ + json_item_meta(x.item_meta) + ",\"is_local\":"@ + json_bool(x.is_local) + ",\"name\":"@ + json_name(x.name))); }
    out.append(",\"ty\":");
    proof { assert(out@ =~= old(out)@ + ("{\"def_id\":"@ + dec_u128(x.def_id.index as u128) + ",\"item_meta\":"@ + json_item_meta(x.item_meta) + ",\"is_local\":"@ + json_bool(x.is_local) + ",\"name\":"@ + json_name(x.name) + ",\"ty\":"@)); }
    write_ty(out, &x.ty);
    proof { assert(out@ =~= old(out)@ + ("{\"def_id\":"@ + dec_u128(x.def_id.index as u128) + ",\"item_meta\":"@ + json_item_meta(x.item_meta) + ",\"is_local\":"@ + json_bool(x.is_local) + ",\"name\":"@ + json_name(x.name) + ",\"ty\":"@ + json_ty(x.ty))); }
    out.append(",\"body\":");
    proof { assert(out@ =~= old(out)@ + ("{\"def_id\":"@ + dec_u128(x.def_id.index as u128) + ",\"item_meta\":"@ + json_item_meta(x.item_meta) + ",\"is_local\":"@ + json_bool(x.is_local) + ",\"name\":"@ + json_name(x.name) + ",\"ty\":"@ + json_ty(x.ty) + ",\"body\":"@)); }
    match &x.body { Option::Some(v) => { write_statement(out, &(*v)); }, Option::None => { out.append("null"); }, }
    proof { assert(out@ =~= old(out)@ + ("{\"def_id\":"@ + dec_u128(x.def_id.index as u128) + ",\"item_meta\":"@ + json_item_meta(x.item_meta) + ",\"is_local\":"@ + json_bool(x.is_local) + ",\"name\":"@ + json_name(x.name) + ",\"ty\":"@ + json_ty(x.ty) + ",\"body\":"@ + (match x.body { Option::Some(v) => json_statement(v), Option::None => "null"@ }))); }
    out.append("}");
    proof { assert(out@ =~= old(out)@ + ("{\"def_id\":"@ + dec_u128(x.def_id.index as u128) + ",\"item_meta\":"@ + json_item_meta(x.item_meta) + ",\"is_local\":"@ + json_bool(x.is_local) + ",\"name\":"@ + json_name(x.name) + ",\"ty\":"@ + json_ty(x.ty) + ",\"body\":"@ + (match x.body { Option::Some(v) => json_statement(v), Option::None => "null"@ }) + "}"@)); }
    proof {
        assert(out@ =~= old(out)@ + json_global_decl(*x));
    }
}

/// Append the serialization of this list, as an array.
#[verifier::rlimit(100)]
#[verifier::spinoff_prover]
#[verifier::loop_isolation(false)]
pub fn write_global_decl_array(out: &mut String, v: &Vec<GlobalDecl>)
    ensures
        final(out)@ == old(out)@ + "["@ + json_global_decl_list(v@) + "]"@,
    decreases *v,
{
    proof {
        reveal_with_fuel(json_global_decl_list, 2);
    }
    out.append("[");
    let mut i: usize = 0;
    while i < v.len()
        invariant
            i <= v@.len(),
            out@ == old(out)@ + "["@ + json_global_decl_list(v@.take(i as int)),
        decreases v@.len() - i,
    {
        if i > 0 {
            out.append(",");
        }
        write_global_decl(out, &v[i]);
        proof {
            assert(v@.take(i + 1 as int).drop_last() =~= v@.take(i as int));
            assert(v@.take(i + 1 as int).last() == v@[i as int]);
            assert(out@ =~= old(out)@ + "["@ + json_global_decl_list(v@.take(i + 1 as int)));
        }
        i += 1;
    }
    proof {
        assert(v@.take(v@.len() as int) =~= v@);
    }
    out.append("]");
    proof {
        assert(out@ =~= old(out)@ + "["@ + json_global_decl_list(v@) + "]"@);
    }
}

/// Append the serialization of this value.
#[verifier::rlimit(100)]
#[verifier::spinoff_prover]
pub fn write_u_raw_statement(out: &mut String, x: &ullbc_ast::RawStatement)
    ensures
        final(out)@ == old(out)@ + json_u_raw_statement(*x),
    decreases *x,
{
    proof {
        reveal(json_u_raw_statement);
    }
    match x {
        ullbc_ast::RawStatement::Assign(a0, a1) => {
            out.append("{\"Assign\":");
            proof { assert(out@ =~= old(out)@ + ("{\"Assign\":"@)); }
            out.append("[");
            proof { assert(out@ =~= old(out)@ + ("{\"Assign\":"@ + "["@)); }
            write_place(out, a0);
            proof { assert(out@ =~= old(out)@ + ("{\"Assign\":"@ + "["@ + json_place((*a0)))); }
            out.append(",");
            proof { assert(out@ =~= old(out)@ + ("{\"Assign\":"@ + "["@ + json_place((*a0)) + ","@)); }
            write_rvalue(out, a1);
            proof { assert(out@ =~= old(out)@ + ("{\"Assign\":"@ + "["@ + json_place((*a0)) + ","@ + json_rvalue((*a1)))); }
            out.append("]");
            proof { assert(out@ =~= old(out)@ + ("{\"Assign\":"@ + "["@ + json_place((*a0)) + ","@ + json_rvalue((*a1)) + "]"@)); }
            out.append("}");
            proof { assert(out@ =~= old(out)@ + ("{\"Assign\":"@ + "["@ + json_place((*a0)) + ","@ + json_rvalue((*a1)) + "]"@ + "}"@)); }
        },
        ullbc_ast::RawStatement::Drop(a0) => {
            out.append("{\"Drop\":");
            proof { assert(out@ =~= old(out)@ + ("{\"Drop\":"@)); }
            write_place(out, a0);
            proof { assert(out@ =~= old(out)@ + ("{\"Drop\":"@ + json_place((*a0)))); }
            out.append("}");
            proof { assert(out@ =~= old(out)@ + ("{\"Drop\":"@ + json_place((*a0)) + "}"@)); }
        },
        ullbc_ast::RawStatement::Nop => { out.append("\"Nop\""); },
    }
    proof {
        assert(out@ =~= old(out)@ + json_u_raw_statement(*x));
    }
}

/// Append the serialization of this value.
#[verifier::rlimit(100)]
#[verifier::spinoff_prover]
pub fn write_u_statement(out: &mut String, x: &ullbc_ast::Statement)
    ensures
        final(out)@ == old(out)@ + json_u_statement(*x),
    decreases *x,
{
    proof {
        reveal(json_u_statement);
    }
    out.append("{\"meta\":");
    proof { assert(out@ =~= old(out)@ + ("{\"meta\":"@)); }
    write_meta(out, &x.meta);
    proof { assert(out@ =~= old(out)@ + ("{\"meta\":"@ + json_meta(x.meta))); }
    out.append(",\"content\":");
    proof { assert(out@ =~= old(out)@ + ("{\"meta\":"@ + json_meta(x.meta) + ",\"content\":"@)); }
    write_u_raw_statement(out, &x.content);
    proof { assert(out@ =~= old(out)@ + ("{\"meta\":"@ + json_meta(x.meta) + ",\"content\":"@ + json_u_raw_statement(x.content))); }
    out.append("}");
    proof { assert(out@ =~= old(out)@ + ("{\"meta\":"@ + json_meta(x.meta) + ",\"content\":"@ + json_u_raw_statement(x.content) + "}"@)); }
    proof {
        assert(out@ =~= old(out)@ + json_u_statement(*x));
    }
}

/// Append the serialization of this list, as an array.
#[verifier::rlimit(100)]
#[verifier::spinoff_prover]
#[verifier::loop_isolation(false)]
pub fn write_u_statement_array(out: &mut String, v: &Vec<ullbc_ast::Statement>)
    ensures
        final(out)@ == old(out)@ + "["@ + json_u_statement_list(v@) + "]"@,
    decreases *v,
{
    proof {
        reveal_with_fuel(json_u_statement_list, 2);
    }
    out.append("[");
    let mut i: usize = 0;
    while i < v.len()
        invariant
            i <= v@.len(),
            out@ == old(out)@ + "["@ + json_u_statement_list(v@.take(i as int)),
        decreases v@.len() - i,
    {
        if i > 0 {
            out.append(",");
        }
        write_u_statement(out, &v[i]);
        proof {
            assert(v@.take(i + 1 as int).drop_last() =~= v@.take(i as int));
            assert(v@.take(i + 1 as int).last() == v@[i as int]);
            assert(out@ =~= old(out)@ + "["@ + json_u_statement_list(v@.take(i + 1 as int)));
        }
        i += 1;
    }
    proof {
        assert(v@.take(v@.len() as int) =~= v@);
    }
    out.append("]");
    proof {
        assert(out@ =~= old(out)@ + "["@ + json_u_statement_list(v@) + "]"@);
    }
}

/// Append the serialization of this value.
#[verifier::rlimit(100)]
#[verifier::spinoff_prover]
pub fn write_u_switch_arm(out: &mut String, x: &(ScalarValue, BlockId))
    ensures
        final(out)@ == old(out)@ + json_u_switch_arm(*x),
    decreases *x,
{
    proof {
        reveal(json_u_switch_arm);
    }
    out.append("[");
    proof { assert(out@ =~= old(out)@ + ("["@)); }
    write_scalar_value(out, &x.0);
    proof { assert(out@ =~= old(out)@ + ("["@ + json_scalar_value(x.0))); }
    out.append(",");
    proof { assert(out@ =~= old(out)@ + ("["@ + json_scalar_value(x.0) + ","@)); }
    write_usize(out, x.1.index);
    proof { assert(out@ =~= old(out)@ + ("["@ + json_scalar_value(x.0) + ","@ + dec_u128(x.1.index as u128))); }
    out.append("]");
    proof { assert(out@ =~= old(out)@ + ("["@ + json_scalar_value(x.0) + ","@ + dec_u128(x.1.index as u128) + "]"@)); }
    proof {
        assert(out@ =~= old(out)@ + json_u_switch_arm(*x));
    }
}

/// Append the serialization of this list, as an array.
#[verifier::rlimit(100)]
#[verifier::spinoff_prover]
#[verifier::loop_isolation(false)]
pub fn write_u_switch_arm_array(out: &mut String, v: &Vec<(ScalarValue, BlockId)>)
    ensures
        final(out)@ == old(out)@ + "["@ + json_u_switch_arm_list(v@) + "]"@,
    decreases *v,
{
    proof {
        reveal_with_fuel(json_u_switch_arm_list, 2);
    }
    out.append("[");
    let mut i: usize = 0;
    while i < v.len()
        invariant
            i <= v@.len(),
            out@ == old(out)@ + "["@ + json_u_switch_arm_list(v@.take(i as int)),
        decreases v@.len() - i,
    {
        if i > 0 {
            out.append(",");
        }
        write_u_switch_arm(out, &v[i]);
        proof {
            assert(v@.take(i + 1 as int).drop_last() =~= v@.take(i as int));
            assert(v@.take(i + 1 as int).last() == v@[i as int]);
            assert(out@ =~= old(out)@ + "["@ + json_u_switch_arm_list(v@.take(i + 1 as int)));
        }
        i += 1;
    }
    proof {
        assert(v@.take(v@.len() as int) =~= v@);
    }
    out.append("]");
    proof {
        assert(out@ =~= old(out)@ + "["@ + json_u_switch_arm_list(v@) + "]"@);
    }
}

/// Append the serialization of this value.
#[verifier::rlimit(100)]
#[verifier::spinoff_prover]
pub fn write_raw_terminator(out: &mut String, x: &ullbc_ast::RawTerminator)
    ensures
        final(out)@ == old(out)@ + json_raw_terminator(*x),
    decreases *x,
{
    proof {
        reveal(json_raw_terminator);
    }
    match x {
        ullbc_ast::RawTerminator::Goto(a0) => {
            out.append("{\"Goto\":");
            proof { assert(out@ =~= old(out)@ + ("{\"Goto\":"@)); }
            write_usize(out, a0.index);
            proof { assert(out@ =~= old(out)@ + ("{\"Goto\":"@ + dec_u128((*a0).index as u128))); }
            out.append("}");
            proof { assert(out@ =~= old(out)@ + ("{\"Goto\":"@ + dec_u128((*a0).index as u128) + "}"@)); }
        },
        ullbc_ast::RawTerminator::Switch(a0, a1, a2, a3) => {
            out.append("{\"Switch\":");
            proof { assert(out@ =~= old(out)@ + ("{\"Switch\":"@)); }
            out.append("[");
            proof { assert(out@ =~= old(out)@ + ("{\"Switch\":"@ + "["@)); }
            write_operand(out, a0);
            proof { assert(out@ =~= old(out)@ + ("{\"Switch\":"@ + "["@ + json_operand((*a0)))); }
            out.append(",");
            proof { assert(out@ =~= old(out)@ + ("{\"Switch\":"@ + "["@ + json_operand((*a0)) + ","@)); }
            write_integer_ty(out, a1);
            proof { assert(out@ =~= old(out)@ + ("{\"Switch\":"@ + "["@ + json_operand((*a0)) + ","@ + json_integer_ty((*a1)))); }
            out.append(",");
            proof { assert(out@ =~= old(out)@ + ("{\"Switch\":"@ + "["@ + json_operand((*a0)) + ","@ + json_integer_ty((*a1)) + ","@)); }
            write_u_switch_arm_array(out, a2);
            proof { assert(out@ =~= old(out)@ + ("{\"Switch\":"@ + "["@ + json_operand((*a0)) + ","@ + json_integer_ty((*a1)) + ","@ + ("["@ + json_u_switch_arm_list((*a2)@) + "]"@))); }
            out.append(",");
            proof { assert(out@ =~= old(out)@ + ("{\"Switch\":"@ + "["@ + json_operand((*a0)) + ","@ + json_integer_ty((*a1)) + ","@ + ("["@ + json_u_switch_arm_list((*a2)@) + "]"@) + ","@)); }
            write_usize(out, a3.index);
            proof { assert(out@ =~= old(out)@ + ("{\"Switch\":"@ + "["@ + json_operand((*a0)) + ","@ + json_integer_ty((*a1)) + ","@ + ("["@ + json_u_switch_arm_list((*a2)@) + "]"@) + ","@ + dec_u128((*a3).index as u128))); }
            out.append("]");
            proof { assert(out@ =~= old(out)@ + ("{\"Switch\":"@ + "["@ + json_operand((*a0)) + ","@ + json_integer_ty((*a1)) + ","@ + ("["@ + json_u_switch_arm_list((*a2)@) + "]"@) + ","@ + dec_u128((*a3).index as u128) + "]"@)); }
            out.append("}");
            proof { assert(out@ =~= old(out)@ + ("{\"Switch\":"@ + "["@ + json_operand((*a0)) + ","@ + json_integer_ty((*a1)) + ","@ + ("["@ + json_u_switch_arm_list((*a2)@) + "]"@) + ","@ + dec_u128((*a3).index as u128) + "]"@ + "}"@)); }
        },
        ullbc_ast::RawTerminator::Return => { out.append("\"Return\""); },
        ullbc_ast::RawTerminator::Unreachable => { out.append("\"Unreachable\""); },
    }
    proof {
        assert(out@ =~= old(out)@ + json_raw_terminator(*x));
    }
}

/// Append the serialization of this value.
#[verifier::rlimit(100)]
#[verifier::spinoff_prover]
pub fn write_terminator(out: &mut String, x: &ullbc_ast::Terminator)
    ensures
        final(out)@ == old(out)@ + json_terminator(*x),
    decreases *x,
{
    proof {
        reveal(json_terminator);
    }
    out.append("{\"meta\":");
    proof { assert(out@ =~= old(out)@ + ("{\"meta\":"@)); }
    write_meta(out, &x.meta);
    proof { assert(out@ =~= old(out)@ + ("{\"meta\":"@ + json_meta(x.meta))); }
    out.append(",\"content\":");
    proof { assert(out@ =~= old(out)@ + ("{\"meta\":"@ + json_meta(x.meta) + ",\"content\":"@)); }
    write_raw_terminator(out, &x.content);
    proof { assert(out@ =~= old(out)@ + ("{\"meta\":"@ + json_meta(x.meta) + ",\"content\":"@ + json_raw_terminator(x.content))); }
    out.append("}");
    proof { assert(out@ =~= old(out)@ + ("{\"meta\":"@ + json_meta(x.meta) + ",\"content\":"@ + json_raw_terminator(x.content) + "}"@)); }
    proof {
        assert(out@ =~= old(out)@ + json_terminator(*x));
    }
}

/// Append the serialization of this value.
#[verifier::rlimit(100)]
#[verifier::spinoff_prover]
pub fn write_block_data(out: &mut String, x: &ullbc_ast::BlockData)
    ensures
        final(out)@ == old(out)@ + json_block_data(*x),
    decreases *x,
{
    proof {
        reveal(json_block_data);
    }
    out.append("{\"statements\":");
    proof { assert(out@ =~= old(out)@ + ("{\"statements\":"@)); }
    write_u_statement_array(out, &x.statements);
    proof { assert(out@ =~= old(out)@ + ("{\"statements\":"@ + ("["@ + json_u_statement_list(x.statements@) + "]"@))); }
    out.append(",\"terminator\":");
    proof { assert(out@ =~= old(out)@ + ("{\"statements\":"@ + ("["@ + json_u_statement_list(x.statements@) + "]"@) + ",\"terminator\":"@)); }
    write_terminator(out, &x.terminator);
    proof { assert(out@ =~= old(out)@ + ("{\"statements\":"@ + ("["@ + json_u_statement_list(x.statements@) + "]"@) + ",\"terminator\":"@ + json_terminator(x.terminator))); }
    out.append("}");
    proof { assert(out@ =~= old(out)@ + ("{\"statements\":"@ + ("["@ + json_u_statement_list(x.statements@) + "]"@) + ",\"terminator\":"@ + json_terminator(x.terminator) + "}"@)); }
    proof {
        assert(out@ =~= old(out)@ + json_block_data(*x));
    }
}

/// Append the serialization of this list, as an array.
#[verifier::rlimit(100)]
#[verifier::spinoff_prover]
#[verifier::loop_isolation(false)]
pub fn write_block_data_array(out: &mut String, v: &Vec<ullbc_ast::BlockData>)
    ensures
        final(out)@ == old(out)@ + "["@ + json_block_data_list(v@) + "]"@,
    decreases *v,
{
    proof {
        reveal_with_fuel(json_block_data_list, 2);
    }
    out.append("[");
    let mut i: usize = 0;
    while i < v.len()
        invariant
            i <= v@.len(),
            out@ == old(out)@ + "["@ + json_block_data_list(v@.take(i as int)),
        decreases v@.len() - i,
    {
        if i > 0 {
            out.append(",");
        }
        write_block_data(out, &v[i]);
        proof {
            assert(v@.take(i + 1 as int).drop_last() =~= v@.take(i as int));
            assert(v@.take(i + 1 as int).last() == v@[i as int]);
            assert(out@ =~= old(out)@ + "["@ + json_block_data_list(v@.take(i + 1 as int)));
        }
        i += 1;
    }
    proof {
        assert(v@.take(v@.len() as int) =~= v@);
    }
    out.append("]");
    proof {
        assert(out@ =~= old(out)@ + "["@ + json_block_data_list(v@) + "]"@);
    }
}

/// Append the serialization of this value.
#[verifier::rlimit(100)]
#[verifier::spinoff_prover]
pub fn write_u_fun_decl(out: &mut String, x: &ullbc_ast::FunDecl)
    ensures
        final(out)@ == old(out)@ + json_u_fun_decl(*x),
    decreases *x,
{
    proof {
        reveal(json_u_fun_decl);
    }
    out.append("{\"def_id\":");
    proof { assert(out@ =~= old(out)@ + ("{\"def_id\":"@)); }
    write_usize(out, x.def_id.index);
    proof { assert(out@ =~= old(out)@ + ("{\"def_id\":"@ + dec_u128(x.def_id.index as u128))); }
    out.append(",\"item_meta\":");
    proof { assert(out@ =~= old(out)@ + ("{\"def_id\":"@ + dec_u128(x.def_id.index as u128) + ",\"item_meta\":"@)); }
    write_item_meta(out, &x.item_meta);
    proof { assert(out@ =~= old(out)@ + ("{\"def_id\":"@ + dec_u128(x.def_id.index as u128) + ",\"item_meta\":"@ + json_item_meta(x.item_meta))); }
    out.append(",\"is_local\":");
    proof { assert(out@ =~= old(out)@ + ("{\"def_id\":"@ + dec_u128(x.def_id.index as u128) + ",\"item_meta\":"@ + json_item_meta(x.item_meta) + ",\"is_local\":"@)); }
    write_bool(out, x.is_local);
    proof { assert(out@ =~= old(out)@ + ("{\"def_id\":"@ + dec_u128(x.def_id.index as u128) + ",\"item_meta\":"@ + json_item_meta(x.item_meta) + ",\"is_local\":"@ + json_bool(x.is_local))); }
    out.append(",\"name\":");
    proof { assert(out@ =~= old(out)@ + ("{\"def_id\":"@ + dec_u128(x.def_id.index as u128) + ",\"item_meta\":"@ + json_item_meta(x.item_meta) + ",\"is_local\":"@ + json_bool(x.is_local) + ",\"name\":"@)); }
    write_name(out, &x.name);
    proof { assert(out@ =~= old(out)@ + ("{\"def_id\":"@ + dec_u128(x.def_id.index as u128) + ",\"item_meta\":"@ + json_item_meta(x.item_meta) + ",\"is_local\":"@ + json_bool(x.is_local) + ",\"name\":"@ + json_name(x.name))); }
    out.append(",\"signature\":");
    proof { assert(out@ =~= old(out)@ + ("{\"def_id\":"@ + dec_u128(x.def_id.index as u128) + ",\"item_meta\":"@ + json_item_meta(x.item_meta) + ",\"is_local\":"@ + json_bool(x.is_local) + ",\"name\":"@ + json_name(x.name) + ",\"signature\":"@)); }
    write_fun_sig(out, &x.signature);
    proof { assert(out@ =~= old(out)@ + ("{\"def_id\":"@ + dec_u128(x.def_id.index as u128) + ",\"item_meta\":"@ + json_item_meta(x.item_meta) + ",\"is_local\":"@ + json_bool(x.is_local) + ",\"name\":"@ + json_name(x.name) + ",\"signature\":"@ + json_fun_sig(x.signature))); }
    out.append(",\"body\":");
    proof { assert(out@ =~= old(out)@ + ("{\"def_id\":"@ + dec_u128(x.def_id.index as u128) + ",\"item_meta\":"@ + json_item_meta(x.item_meta) + ",\"is_local\":"@ + json_bool(x.is_local) + ",\"name\":"@ + json_name(x.name) + ",\"signature\":"@ + json_fun_sig(x.signature) + ",\"body\":"@)); }
    match &x.body { Option::Some(v) => { write_block_data_array(out, &(*v)); }, Option::None => { out.append("null"); }, }
    proof { assert(out@ =~= old(out)@ + ("{\"def_id\":"@ + dec_u128(x.def_id.index as u128) + ",\"item_meta\":"@ + json_item_meta(x.item_meta) + ",\"is_local\":"@ + json_bool(x.is_local) + ",\"name\":"@ + json_name(x.name) + ",\"signature\":"@ + json_fun_sig(x.signature) + ",\"body\":"@ + (match x.body { Option::Some(v) => ("["@ + json_block_data_list(v@) + "]"@), Option::None => "null"@ }))); }
    out.append("}");
    proof { assert(out@ =~= old(out)@ + ("{\"def_id\":"@ + dec_u128(x.def_id.index as u128) + ",\"item_meta\":"@ + json_item_meta(x.item_meta) + ",\"is_local\":"@ + json_bool(x.is_local) + ",\"name\":"@ + json_name(x.name) + ",\"signature\":"@ + json_fun_sig(x.signature) + ",\"body\":"@ + (match x.body { Option::Some(v) => ("["@ + json_block_data_list(v@) + "]"@), Option::None => "null"@ }) + "}"@)); }
    proof {
        assert(out@ =~= old(out)@ + json_u_fun_decl(*x));
    }
}

/// Append the serialization of this list, as an array.
#[verifier::rlimit(100)]
#[verifier::spinoff_prover]
#[verifier::loop_isolation(false)]
pub fn write_u_fun_decl_array(out: &mut String, v: &Vec<ullbc_ast::FunDecl>)
    ensures
        final(out)@ == old(out)@ + "["@ + json_u_fun_decl_list(v@) + "]"@,
    decreases *v,
{
    proof {
        reveal_with_fuel(json_u_fun_decl_list, 2);
    }
    out.append("[");
    let mut i: usize = 0;
    while i < v.len()
        invariant
            i <= v@.len(),
            out@ == old(out)@ + "["@ + json_u_fun_decl_list(v@.take(i as int)),
        decreases v@.len() - i,
    {
        if i > 0 {
            out.append(",");
        }
        write_u_fun_decl(out, &v[i]);
        proof {
            assert(v@.take(i + 1 as int).drop_last() =~= v@.take(i as int));
            assert(v@.take(i + 1 as int).last() == v@[i as int]);
            assert(out@ =~= old(out)@ + "["@ + json_u_fun_decl_list(v@.take(i + 1 as int)));
        }
        i += 1;
    }
    proof {
        assert(v@.take(v@.len() as int) =~= v@);
    }
    out.append("]");
    proof {
        assert(out@ =~= old(out)@ + "["@ + json_u_fun_decl_list(v@) + "]"@);
    }
}

/// Append the serialization of this value.
#[verifier::rlimit(100)]
#[verifier::spinoff_prover]
pub fn write_u_global_decl(out: &mut String, x: &ullbc_ast::GlobalDecl)
    ensures
        final(out)@ == old(out)@ + json_u_global_decl(*x),
    decreases *x,
{
    proof {
        reveal(json_u_global_decl);
    }
    out.append("{\"def_id\":");
    proof { assert(out@ =~= old(out)@ + ("{\"def_id\":"@)); }
    write_usize(out, x.def_id.index);
    proof { assert(out@ =~= old(out)@ + ("{\"def_id\":"@ + dec_u128(x.def_id.index as u128))); }
    out.append(",\"item_meta\":");
    proof { assert(out@ =~= old(out)@ + ("{\"def_id\":"@ + dec_u128(x.def_id.index as u128) + ",\"item_meta\":"@)); }
    write_item_meta(out, &x.item_meta);
    proof { assert(out@ =~= old(out)@ + ("{\"def_id\":"@ + dec_u128(x.def_id.index as u128) + ",\"item_meta\":"@ + json_item_meta(x.item_meta))); }
    out.append(",\"is_local\":");
    proof { assert(out@ =~= old(out)@ + ("{\"def_id\":"@ + dec_u128(x.def_id.index as u128) + ",\"item_meta\":"@ + json_item_meta(x.item_meta) + ",\"is_local\":"@)); }
    write_bool(out, x.is_local);
    proof { assert(out@ =~= old(out)@ + ("{\"def_id\":"@ + dec_u128(x.def_id.index as u128) + ",\"item_meta\":"@ + json_item_meta(x.item_meta) + ",\"is_local\":"@ + json_bool(x.is_local))); }
    out.append(",\"name\":");
    proof { assert(out@ =~= old(out)@ + ("{\"def_id\":"@ + dec_u128(x.def_id.index as u128) + ",\"item_meta\":"@ + json_item_meta(x.item_meta) + ",\"is_local\":"@ + json_bool(x.is_local) + ",\"name\":"@)); }
    write_name(out, &x.name);
    proof { assert(out@ =~= old(out)@ + ("{\"def_id\":"@ + dec_u128(x.def_id.index as u128) + ",\"item_meta\":"@ + json_item_meta(x.item_meta) + ",\"is_local\":"@ + json_bool(x.is_local) + ",\"name\":"@ + json_name(x.name))); }
    out.append(",\"ty\":");
    proof { assert(out@ =~= old(out)@ + ("{\"def_id\":"@ + dec_u128(x.def_id.index as u128) + ",\"item_meta\":"@ + json_item_meta(x.item_meta) + ",\"is_local\":"@ + json_bool(x.is_local) + ",\"name\":"@ + json_name(x.name) + ",\"ty\":"@)); }
    write_ty(out, &x.ty);
    proof { assert(out@ =~= old(out)@ + ("{\"def_id\":"@ + dec_u128(x.def_id.index as u128) + ",\"item_meta\":"@ + json_item_meta(x.item_meta) + ",\"is_local\":"@ + json_bool(x.is_local) + ",\"name\":"@ + json_name(x.name) + ",\"ty\":"@ + json_ty(x.ty))); }
    out.append(",\"body\":");
    proof { assert(out@ =~= old(out)@ + ("{\"def_id\":"@ + dec_u128(x.def_id.index as u128) + ",\"item_meta\":"@ + json_item_meta(x.item_meta) + ",\"is_local\":"@ + json_bool(x.is_local) + ",\"name\":"@ + json_name(x.name) + ",\"ty\":"@ + json_ty(x.ty) + ",\"body\":"@)); }
    match &x.body { Option::Some(v) => { write_block_data_array(out, &(*v)); }, Option::None => { out.append("null"); }, }
    proof { assert(out@ =~= old(out)@ + ("{\"def_id\":"@ + dec_u128(x.def_id.index as u128) + ",\"item_meta\":"@ + json_item_meta(x.item_meta) + ",\"is_local\":"@ + json_bool(x.is_local) + ",\"name\":"@ + json_name(x.name) + ",\"ty\":"@ + json_ty(x.ty) + ",\"body\":"@ + (match x.body { Option::Some(v) => ("["@ + json_block_data_list(v@) + "]"@), Option::None => "null"@ }))); }
    out.append("}");
    proof { assert(out@ =~= old(out)@ + ("{\"def_id\":"@ + dec_u128(x.def_id.index as u128) + ",\"item_meta\":"@ + json_item_meta(x.item_meta) + ",\"is_local\":"@ + json_bool(x.is_local) + ",\"name\":"@ + json_name(x.name) + ",\"ty\":"@ + json_ty(x.ty) + ",\"body\":"@ + (match x.body { Option::Some(v) => ("["@ + json_block_data_list(v@) + "]"@), Option::None => "null"@ }) + "}"@)); }
    proof {
        assert(out@ =~= old(out)@ + json_u_global_decl(*x));
    }
}

/// Append the serialization of this list, as an array.
#[verifier::rlimit(100)]
#[verifier::spinoff_prover]
#[verifier::loop_isolation(false)]
pub fn write_u_global_decl_array(out: &mut String, v: &Vec<ullbc_ast::GlobalDecl>)
    ensures
        final(out)@ == old(out)@ + "["@ + json_u_global_decl_list(v@) + "]"@,
    decreases *v,
{
    proof {
        reveal_with_fuel(json_u_global_decl_list, 2);
    }
    out.append("[");
    let mut i: usize = 0;
    while i < v.len()
        invariant
            i <= v@.len(),
            out@ == old(out)@ + "["@ + json_u_global_decl_list(v@.take(i as int)),
        decreases v@.len() - i,
    {
        if i > 0 {
            out.append(",");
        }
        write_u_global_decl(out, &v[i]);
        proof {
            assert(v@.take(i + 1 as int).drop_last() =~= v@.take(i as int));
            assert(v@.take(i + 1 as int).last() == v@[i as int]);
            assert(out@ =~= old(out)@ + "["@ + json_u_global_decl_list(v@.take(i + 1 as int)));
        }
        i += 1;
    }
    proof {
        assert(v@.take(v@.len() as int) =~= v@);
    }
    out.append("]");
    proof {
        assert(out@ =~= old(out)@ + "["@ + json_u_global_decl_list(v@) + "]"@);
    }
}

/// Append the serialization of this list, as an array.
#[verifier::rlimit(100)]
#[verifier::spinoff_prover]
#[verifier::loop_isolation(false)]
pub fn write_type_decl_id_array(out: &mut String, v: &Vec<TypeDeclId>)
    ensures
        final(out)@ == old(out)@ + "["@ + json_type_decl_id_list(v@) + "]"@,
    decreases *v,
{
    proof {
        reveal_with_fuel(json_type_decl_id_list, 2);
    }
    out.append("[");
    let mut i: usize = 0;
    while i < v.len()
        invariant
            i <= v@.len(),
            out@ == old(out)@ + "["@ + json_type_decl_id_list(v@.take(i as int)),
        decreases v@.len() - i,
    {
        if i > 0 {
            out.append(",");
        }
        write_usize(out, v[i].index);
        proof {
            assert(v@.take(i + 1 as int).drop_last() =~= v@.take(i as int));
            assert(v@.take(i + 1 as int).last() == v@[i as int]);
            assert(out@ =~= old(out)@ + "["@ + json_type_decl_id_list(v@.take(i + 1 as int)));
        }
        i += 1;
    }
    proof {
        assert(v@.take(v@.len() as int) =~= v@);
    }
    out.append("]");
    proof {
        assert(out@ =~= old(out)@ + "["@ + json_type_decl_id_list(v@) + "]"@);
    }
}

/// Append the serialization of this list, as an array.
#[verifier::rlimit(100)]
#[verifier::spinoff_prover]
#[verifier::loop_isolation(false)]
pub fn write_fun_decl_id_array(out: &mut String, v: &Vec<FunDeclId>)
    ensures
        final(out)@ == old(out)@ + "["@ + json_fun_decl_id_list(v@) + "]"@,
    decreases *v,
{
    proof {
        reveal_with_fuel(json_fun_decl_id_list, 2);
    }
    out.append("[");
    let mut i: usize = 0;
    while i < v.len()
        invariant
            i <= v@.len(),
            out@ == old(out)@ + "["@ + json_fun_decl_id_list(v@.take(i as int)),
        decreases v@.len() - i,
    {
        if i > 0 {
            out.append(",");
        }
        write_usize(out, v[i].index);
        proof {
            assert(v@.take(i + 1 as int).drop_last() =~= v@.take(i as int));
            assert(v@.take(i + 1 as int).last() == v@[i as int]);
            assert(out@ =~= old(out)@ + "["@ + json_fun_decl_id_list(v@.take(i + 1 as int)));
        }
        i += 1;
    }
    proof {
        assert(v@.take(v@.len() as int) =~= v@);
    }
    out.append("]");
    proof {
        assert(out@ =~= old(out)@ + "["@ + json_fun_decl_id_list(v@) + "]"@);
    }
}

/// Append the serialization of this list, as an array.
#[verifier::rlimit(100)]
#[verifier::spinoff_prover]
#[verifier::loop_isolation(false)]
pub fn write_global_decl_id_array(out: &mut String, v: &Vec<GlobalDeclId>)
    ensures
        final(out)@ == old(out)@ + "["@ + json_global_decl_id_list(v@) + "]"@,
    decreases *v,
{
    proof {
        reveal_with_fuel(json_global_decl_id_list, 2);
    }
    out.append("[");
    let mut i: usize = 0;
    while i < v.len()
        invariant
            i <= v@.len(),
            out@ == old(out)@ + "["@ + json_global_decl_id_list(v@.take(i as int)),
        decreases v@.len() - i,
    {
        if i > 0 {
            out.append(",");
        }
        write_usize(out, v[i].index);
        proof {
            assert(v@.take(i + 1 as int).drop_last() =~= v@.take(i as int));
            assert(v@.take(i + 1 as int).last() == v@[i as int]);
            assert(out@ =~= old(out)@ + "["@ + json_global_decl_id_list(v@.take(i + 1 as int)));
        }
        i += 1;
    }
    proof {
        assert(v@.take(v@.len() as int) =~= v@);
    }
    out.append("]");
    proof {
        assert(out@ =~= old(out)@ + "["@ + json_global_decl_id_list(v@) + "]"@);
    }
}

/// Append the serialization of this list, as an array.
#[verifier::rlimit(100)]
#[verifier::spinoff_prover]
#[verifier::loop_isolation(false)]
pub fn write_trait_decl_id_array(out: &mut String, v: &Vec<TraitDeclId>)
    ensures
        final(out)@ == old(out)@ + "["@ + json_trait_decl_id_list(v@) + "]"@,
    decreases *v,
{
    proof {
        reveal_with_fuel(json_trait_decl_id_list, 2);
    }
    out.append("[");
    let mut i: usize = 0;
    while i < v.len()
        invariant
            i <= v@.len(),
            out@ == old(out)@ + "["@ + json_trait_decl_id_list(v@.take(i as int)),
        decreases v@.len() - i,
    {
        if i > 0 {
            out.append(",");
        }
        write_usize(out, v[i].index);
        proof {
            assert(v@.take(i + 1 as int).drop_last() =~= v@.take(i as int));
            assert(v@.take(i + 1 as int).last() == v@[i as int]);
            assert(out@ =~= old(out)@ + "["@ + json_trait_decl_id_list(v@.take(i + 1 as int)));
        }
        i += 1;
    }
    proof {
        assert(v@.take(v@.len() as int) =~= v@);
    }
    out.append("]");
    proof {
        assert(out@ =~= old(out)@ + "["@ + json_trait_decl_id_list(v@) + "]"@);
    }
}

/// Append the serialization of this list, as an array.
#[verifier::rlimit(100)]
#[verifier::spinoff_prover]
#[verifier::loop_isolation(false)]
pub fn write_trait_impl_id_array(out: &mut String, v: &Vec<TraitImplId>)
    ensures
        final(out)@ == old(out)@ + "["@ + json_trait_impl_id_list(v@) + "]"@,
    decreases *v,
{
    proof {
        reveal_with_fuel(json_trait_impl_id_list, 2);
    }
    out.append("[");
    let mut i: usize = 0;
    while i < v.len()
        invariant
            i <= v@.len(),
            out@ == old(out)@ + "["@ + json_trait_impl_id_list(v@.take(i as int)),
        decreases v@.len() - i,
    {
        if i > 0 {
            out.append(",");
        }
        write_usize(out, v[i].index);
        proof {
            assert(v@.take(i + 1 as int).drop_last() =~= v@.take(i as int));
            assert(v@.take(i + 1 as int).last() == v@[i as int]);
            assert(out@ =~= old(out)@ + "["@ + json_trait_impl_id_list(v@.take(i + 1 as int)));
        }
        i += 1;
    }
    proof {
        assert(v@.take(v@.len() as int) =~= v@);
    }
    out.append("]");
    proof {
        assert(out@ =~= old(out)@ + "["@ + json_trait_impl_id_list(v@) + "]"@);
    }
}

/// Append the serialization of this value.
#[verifier::rlimit(100)]
#[verifier::spinoff_prover]
pub fn write_type_group(out: &mut String, x: &GDeclarationGroup<TypeDeclId>)
    ensures
        final(out)@ == old(out)@ + json_type_group(*x),
    decreases *x,
{
    proof {
        reveal(json_type_group);
    }
    match x {
        GDeclarationGroup::NonRec(a0) => {
            out.append("{\"NonRec\":");
            proof { assert(out@ =~= old(out)@ + ("{\"NonRec\":"@)); }
            write_usize(out, a0.index);
            proof { assert(out@ =~= old(out)@ + ("{\"NonRec\":"@ + dec_u128((*a0).index as u128))); }
            out.append("}");
            proof { assert(out@ =~= old(out)@ + ("{\"NonRec\":"@ + dec_u128((*a0).index as u128) + "}"@)); }
        },
        GDeclarationGroup::Rec(a0) => {
            out.append("{\"Rec\":");
            proof { assert(out@ =~= old(out)@ + ("{\"Rec\":"@)); }
            write_type_decl_id_array(out, a0);
            proof { assert(out@ =~= old(out)@ + ("{\"Rec\":"@ + ("["@ + json_type_decl_id_list((*a0)@) + "]"@))); }
            out.append("}");
            proof { assert(out@ =~= old(out)@ + ("{\"Rec\":"@ + ("["@ + json_type_decl_id_list((*a0)@) + "]"@) + "}"@)); }
        },
    }
    proof {
        assert(out@ =~= old(out)@ + json_type_group(*x));
    }
}

/// Append the serialization of this value.
#[verifier::rlimit(100)]
#[verifier::spinoff_prover]
pub fn write_fun_group(out: &mut String, x: &GDeclarationGroup<FunDeclId>)
    ensures
        final(out)@ == old(out)@ + json_fun_group(*x),
    decreases *x,
{
    proof {
        reveal(json_fun_group);
    }
    match x {
        GDeclarationGroup::NonRec(a0) => {
            out.append("{\"NonRec\":");
            proof { assert(out@ =~= old(out)@ + ("{\"NonRec\":"@)); }
            write_usize(out, a0.index);
            proof { assert(out@ =~= old(out)@ + ("{\"NonRec\":"@ + dec_u128((*a0).index as u128))); }
            out.append("}");
            proof { assert(out@ =~= old(out)@ + ("{\"NonRec\":"@ + dec_u128((*a0).index as u128) + "}"@)); }
        },
        GDeclarationGroup::Rec(a0) => {
            out.append("{\"Rec\":");
            proof { assert(out@ =~= old(out)@ + ("{\"Rec\":"@)); }
            write_fun_decl_id_array(out, a0);
            proof { assert(out@ =~= old(out)@ + ("{\"Rec\":"@ + ("["@ + json_fun_decl_id_list((*a0)@) + "]"@))); }
            out.append("}");
            proof { assert(out@ =~= old(out)@ + ("{\"Rec\":"@ + ("["@ + json_fun_decl_id_list((*a0)@) + "]"@) + "}"@)); }
        },
    }
    proof {
        assert(out@ =~= old(out)@ + json_fun_group(*x));
    }
}

/// Append the serialization of this value.
#[verifier::rlimit(100)]
#[verifier::spinoff_prover]
pub fn write_global_group(out: &mut String, x: &GDeclarationGroup<GlobalDeclId>)
    ensures
        final(out)@ == old(out)@ + json_global_group(*x),
    decreases *x,
{
    proof {
        reveal(json_global_group);
    }
    match x {
        GDeclarationGroup::NonRec(a0) => {
            out.append("{\"NonRec\":");
            proof { assert(out@ =~= old(out)@ + ("{\"NonRec\":"@)); }
            write_usize(out, a0.index);
            proof { assert(out@ =~= old(out)@ + ("{\"NonRec\":"@ + dec_u128((*a0).index as u128))); }
            out.append("}");
            proof { assert(out@ =~= old(out)@ + ("{\"NonRec\":"@ + dec_u128((*a0).index as u128) + "}"@)); }
        },
        GDeclarationGroup::Rec(a0) => {
            out.append("{\"Rec\":");
            proof { assert(out@ =~= old(out)@ + ("{\"Rec\":"@)); }
            write_global_decl_id_array(out, a0);
            proof { assert(out@ =~= old(out)@ + ("{\"Rec\":"@ + ("["@ + json_global_decl_id_list((*a0)@) + "]"@))); }
            out.append("}");
            proof { assert(out@ =~= old(out)@ + ("{\"Rec\":"@ + ("["@ + json_global_decl_id_list((*a0)@) + "]"@) + "}"@)); }
        },
    }
    proof {
        assert(out@ =~= old(out)@ + json_global_group(*x));
    }
}

/// Append the serialization of this value.
#[verifier::rlimit(100)]
#[verifier::spinoff_prover]
pub fn write_trait_decl_group(out: &mut String, x: &GDeclarationGroup<TraitDeclId>)
    ensures
        final(out)@ == old(out)@ + json_trait_decl_group(*x),
    decreases *x,
{
    proof {
        reveal(json_trait_decl_group);
    }
    match x {
        GDeclarationGroup::NonRec(a0) => {
            out.append("{\"NonRec\":");
            proof { assert(out@ =~= old(out)@ + ("{\"NonRec\":"@)); }
            write_usize(out, a0.index);
            proof { assert(out@ =~= old(out)@ + ("{\"NonRec\":"@ + dec_u128((*a0).index as u128))); }
            out.append("}");
            proof { assert(out@ =~= old(out)@ + ("{\"NonRec\":"@ + dec_u128((*a0).index as u128) + "}"@)); }
        },
        GDeclarationGroup::Rec(a0) => {
            out.append("{\"Rec\":");
            proof { assert(out@ =~= old(out)@ + ("{\"Rec\":"@)); }
            write_trait_decl_id_array(out, a0);
            proof { assert(out@ =~= old(out)@ + ("{\"Rec\":"@ + ("["@ + json_trait_decl_id_list((*a0)@) + "]"@))); }
            out.append("}");
            proof { assert(out@ =~= old(out)@ + ("{\"Rec\":"@ + ("["@ + json_trait_decl_id_list((*a0)@) + "]"@) + "}"@)); }
        },
    }
    proof {
        assert(out@ =~= old(out)@ + json_trait_decl_group(*x));
    }
}

/// Append the serialization of this value.
#[verifier::rlimit(100)]
#[verifier::spinoff_prover]
pub fn write_trait_impl_group(out: &mut String, x: &GDeclarationGroup<TraitImplId>)
    ensures
        final(out)@ == old(out)@ + json_trait_impl_group(*x),
    decreases *x,
{
    proof {
        reveal(json_trait_impl_group);
    }
    match x {
        GDeclarationGroup::NonRec(a0) => {
            out.append("{\"NonRec\":");
            proof { assert(out@ =~= old(out)@ + ("{\"NonRec\":"@)); }
            write_usize(out, a0.index);
            proof { assert(out@ =~= old(out)@ + ("{\"NonRec\":"@ + dec_u128((*a0).index as u128))); }
            out.append("}");
            proof { assert(out@ =~= old(out)@ + ("{\"NonRec\":"@ + dec_u128((*a0).index as u128) + "}"@)); }
        },
        GDeclarationGroup::Rec(a0) => {
            out.append("{\"Rec\":");
            proof { assert(out@ =~= old(out)@ + ("{\"Rec\":"@)); }
            write_trait_impl_id_array(out, a0);
            proof { assert(out@ =~= old(out)@ + ("{\"Rec\":"@ + ("["@ + json_trait_impl_id_list((*a0)@) + "]"@))); }
            out.append("}");
            proof { assert(out@ =~= old(out)@ + ("{\"Rec\":"@ + ("["@ + json_trait_impl_id_list((*a0)@) + "]"@) + "}"@)); }
        },
    }
    proof {
        assert(out@ =~= old(out)@ + json_trait_impl_group(*x));
    }
}

/// Append the serialization of this value.
#[verifier::rlimit(100)]
#[verifier::spinoff_prover]
pub fn write_declaration_group(out: &mut String, x: &DeclarationGroup)
    ensures
        final(out)@ == old(out)@ + json_declaration_group(*x),
    decreases *x,
{
    proof {
        reveal(json_declaration_group);
    }
    match x {
        DeclarationGroup::Type(a0) => {
            out.append("{\"Type\":");
            proof { assert(out@ =~= old(out)@ + ("{\"Type\":"@)); }
            write_type_group(out, a0);
            proof { assert(out@ =~= old(out)@ + ("{\"Type\":"@ + json_type_group((*a0)))); }
            out.append("}");
            proof { assert(out@ =~= old(out)@ + ("{\"Type\":"@ + json_type_group((*a0)) + "}"@)); }
        },
        DeclarationGroup::Fun(a0) => {
            out.append("{\"Fun\":");
            proof { assert(out@ =~= old(out)@ + ("{\"Fun\":"@)); }
            write_fun_group(out, a0);
            proof { assert(out@ =~= old(out)@ + ("{\"Fun\":"@ + json_fun_group((*a0)))); }
            out.append("}");
            proof { assert(out@ =~= old(out)@ + ("{\"Fun\":"@ + json_fun_group((*a0)) + "}"@)); }
        },
        DeclarationGroup::Global(a0) => {
            out.append("{\"Global\":");
            proof { assert(out@ =~= old(out)@ + ("{\"Global\":"@)); }
            write_global_group(out, a0);
            proof { assert(out@ =~= old(out)@ + ("{\"Global\":"@ + json_global_group((*a0)))); }
            out.append("}");
            proof { assert(out@ =~= old(out)@ + ("{\"Global\":"@ + json_global_group((*a0)) + "}"@)); }
        },
        DeclarationGroup::TraitDecl(a0) => {
            out.append("{\"TraitDecl\":");
            proof { assert(out@ =~= old(out)@ + ("{\"TraitDecl\":"@)); }
            write_trait_decl_group(out, a0);
            proof { assert(out@ =~= old(out)@ + ("{\"TraitDecl\":"@ + json_trait_decl_group((*a0)))); }
            out.append("}");
            proof { assert(out@ =~= old(out)@ + ("{\"TraitDecl\":"@ + json_trait_decl_group((*a0)) + "}"@)); }
        },
        DeclarationGroup::TraitImpl(a0) => {
            out.append("{\"TraitImpl\":");
            proof { assert(out@ =~= old(out)@ + ("{\"TraitImpl\":"@)); }
            write_trait_impl_group(out, a0);
            proof { assert(out@ =~= old(out)@ + ("{\"TraitImpl\":"@ + json_trait_impl_group((*a0)))); }
            out.append("}");
            proof { assert(out@ =~= old(out)@ + ("{\"TraitImpl\":"@ + json_trait_impl_group((*a0)) + "}"@)); }
        },
    }
    proof {
        assert(out@ =~= old(out)@ + json_declaration_group(*x));
    }
}

/// Append the serialization of this list, as an array.
#[verifier::rlimit(100)]
#[verifier::spinoff_prover]
#[verifier::loop_isolation(false)]
pub fn write_declaration_group_array(out: &mut String, v: &Vec<DeclarationGroup>)
    ensures
        final(out)@ == old(out)@ + "["@ + json_declaration_group_list(v@) + "]"@,
    decreases *v,
{
    proof {
        reveal_with_fuel(json_declaration_group_list, 2);
    }
    out.append("[");
    let mut i: usize = 0;
    while i < v.len()
        invariant
            i <= v@.len(),
            out@ == old(out)@ + "["@ + json_declaration_group_list(v@.take(i as int)),
        decreases v@.len() - i,
    {
        if i > 0 {
            out.append(",");
        }
        write_declaration_group(out, &v[i]);
        proof {
            assert(v@.take(i + 1 as int).drop_last() =~= v@.take(i as int));
            assert(v@.take(i + 1 as int).last() == v@[i as int]);
            assert(out@ =~= old(out)@ + "["@ + json_declaration_group_list(v@.take(i + 1 as int)));
        }
        i += 1;
    }
    proof {
        assert(v@.take(v@.len() as int) =~= v@);
    }
    out.append("]");
    proof {
        assert(out@ =~= old(out)@ + "["@ + json_declaration_group_list(v@) + "]"@);
    }
}

/// Append the serialization of this value.
#[verifier::rlimit(100)]
#[verifier::spinoff_prover]
pub fn write_file_entry(out: &mut String, x: &(FileId, FileName))
    ensures
        final(out)@ == old(out)@ + json_file_entry(*x),
    decreases *x,
{
    proof {
        reveal(json_file_entry);
    }
    out.append("[");
    proof { assert(out@ =~= old(out)@ + ("["@)); }
    write_usize(out, x.0.index);
    proof { assert(out@ =~= old(out)@ + ("["@ + dec_u128(x.0.index as u128))); }
    out.append(",");
    proof { assert(out@ =~= old(out)@ + ("["@ + dec_u128(x.0.index as u128) + ","@)); }
    write_file_name(out, &x.1);
    proof { assert(out@ =~= old(out)@ + ("["@ + dec_u128(x.0.index as u128) + ","@ + json_file_name(x.1))); }
    out.append("]");
    proof { assert(out@ =~= old(out)@ + ("["@ + dec_u128(x.0.index as u128) + ","@ + json_file_name(x.1) + "]"@)); }
    proof {
        assert(out@ =~= old(out)@ + json_file_entry(*x));
    }
}

/// Append the serialization of this list, as an array.
#[verifier::rlimit(100)]
#[verifier::spinoff_prover]
#[verifier::loop_isolation(false)]
pub fn write_file_entry_array(out: &mut String, v: &Vec<(FileId, FileName)>)
    ensures
        final(out)@ == old(out)@ + "["@ + json_file_entry_list(v@) + "]"@,
    decreases *v,
{
    proof {
        reveal_with_fuel(json_file_entry_list, 2);
    }
    out.append("[");
    let mut i: usize = 0;
    while i < v.len()
        invariant
            i <= v@.len(),
            out@ == old(out)@ + "["@ + json_file_entry_list(v@.take(i as int)),
        decreases v@.len() - i,
    {
        if i > 0 {
            out.append(",");
        }
        write_file_entry(out, &v[i]);
        proof {
            assert(v@.take(i + 1 as int).drop_last() =~= v@.take(i as int));
            assert(v@.take(i + 1 as int).last() == v@[i as int]);
            assert(out@ =~= old(out)@ + "["@ + json_file_entry_list(v@.take(i + 1 as int)));
        }
        i += 1;
    }
    proof {
        assert(v@.take(v@.len() as int) =~= v@);
    }
    out.append("]");
    proof {
        assert(out@ =~= old(out)@ + "["@ + json_file_entry_list(v@) + "]"@);
    }
}

} // verus!
