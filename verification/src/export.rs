//! Crate assembly and export.
//!
//! Once all the passes have run, the translation context and the lowered
//! declaration collections are assembled into one immutable snapshot. The
//! snapshot's file table is sorted by file identifier so that exporting
//! the same snapshot always produces the same text, and the partial-result
//! flag is derived from the error counter, never set directly.

use crate::ids::FileId;
use crate::json::json_string;
use crate::llbc_ast;
use crate::meta::FileName;
use crate::reorder_decls::DeclarationGroup;
use crate::serialize::{
    json_declaration_group_list, json_file_entry_list, json_fun_decl_list, json_global_decl_list,
    json_trait_decl_list, json_trait_impl_list, json_type_decl_list, json_u_fun_decl_list,
    json_u_global_decl_list, json_variant, json_variant_list, write_declaration_group_array,
    write_file_entry_array,
    write_fun_decl_array, write_global_decl_array, write_trait_decl_array,
    write_trait_impl_array, write_type_decl_array, write_u_fun_decl_array,
    write_u_global_decl_array,
};
use crate::json::write_string;
use crate::translate_ctx::TransCtx;
use crate::types::{TypeDecl, Variant};
use crate::gast::{TraitDecl, TraitImpl};
use crate::ullbc_ast;
use vstd::prelude::*;
use vstd::string::StringExecFns;

verus! {

broadcast use vstd::std_specs::vec::group_vec_axioms;

/// The data of a crate snapshot, generic over the function and global body
/// representation: the same shape serves the unstructured and the
/// structured form.
pub struct GCrateData<FD, GD> {
    pub name: String,
    /// The file table, sorted by file identifier. Spans store only file
    /// identifiers; this table gives them a meaning.
    pub id_to_file: Vec<(FileId, FileName)>,
    /// The externally computed ordered declaration groups, carried
    /// verbatim.
    pub declarations: Vec<DeclarationGroup>,
    pub types: Vec<TypeDecl>,
    pub functions: Vec<FD>,
    pub globals: Vec<GD>,
    pub trait_decls: Vec<TraitDecl>,
    pub trait_impls: Vec<TraitImpl>,
    /// Whether translation registered errors: if so, this snapshot only
    /// partially describes the input crate. Advisory, and never
    /// serialized.
    pub has_errors: bool,
}

/// Whether a file table is sorted by file identifier.
pub open spec fn file_entries_sorted(s: Seq<(FileId, FileName)>) -> bool {
    forall|i: int, j: int| 0 <= i < j < s.len() ==> s[i].0.index <= s[j].0.index
}

/// Sort a file table by file identifier: the result is an ordered
/// rearrangement of the input entries.
#[verifier::loop_isolation(false)]
pub fn sort_file_entries(v: Vec<(FileId, FileName)>) -> (r: Vec<(FileId, FileName)>)
    ensures
        file_entries_sorted(r@),
        r@.to_multiset() == v@.to_multiset(),
        r@.len() == v@.len(),
{
    broadcast use vstd::seq_lib::group_seq_properties;

    let ghost orig = v@;
    let mut rem = v;
    let mut out: Vec<(FileId, FileName)> = Vec::new();
    proof {
        vstd::seq_lib::lemma_multiset_commutative(out@, rem@);
        assert(out@ + rem@ =~= rem@);
    }
    while rem.len() > 0
        invariant
            file_entries_sorted(out@),
            (out@ + rem@).to_multiset() == orig.to_multiset(),
            out@.len() + rem@.len() == orig.len(),
            forall|a: int, b: int|
                0 <= a < out@.len() && 0 <= b < rem@.len() ==> out@[a].0.index
                    <= rem@[b].0.index,
        decreases rem@.len(),
    {
        // Find the position of a least remaining identifier.
        let mut min: usize = 0;
        let mut i: usize = 1;
        while i < rem.len()
            invariant
                min < rem@.len(),
                i <= rem@.len(),
                forall|k: int| 0 <= k < i ==> rem@[min as int].0.index <= rem@[k].0.index,
            decreases rem@.len() - i,
        {
            if rem[i].0.index < rem[min].0.index {
                min = i;
            }
            i += 1;
        }
        let ghost out0 = out@;
        let ghost rem0 = rem@;
        let x = rem.remove(min);
        out.push(x);
        proof {
            rem0.to_multiset_ensures();
            out0.to_multiset_ensures();
            assert(rem0.remove(min as int).to_multiset() =~= rem0.to_multiset().remove(x));
            assert(out0.push(x).to_multiset() =~= out0.to_multiset().insert(x));
            vstd::seq_lib::lemma_multiset_commutative(out0, rem0);
            vstd::seq_lib::lemma_multiset_commutative(out@, rem@);
            assert(out@.to_multiset().add(rem@.to_multiset()) =~= out0.to_multiset().add(
                rem0.to_multiset(),
            ));
        }
    }
    proof {
        vstd::seq_lib::lemma_multiset_commutative(out@, rem@);
        assert(out@ + rem@ =~= out@);
    }
    out
}

impl<FD, GD> GCrateData<FD, GD> {
    /// Assemble the snapshot of a translated crate.
    ///
    /// The file table of the context is sorted by file identifier, so
    /// that the serialized output is as stable as possible; everything
    /// else is carried over unchanged. The partial-result flag is derived
    /// from the context's error counter.
    pub fn new(
        ctx: TransCtx,
        crate_name: String,
        fun_decls: Vec<FD>,
        global_decls: Vec<GD>,
    ) -> (r: Self)
        requires
            ctx.ordered_decls is Some,
        ensures
            r.name == crate_name,
            file_entries_sorted(r.id_to_file@),
            r.id_to_file@.to_multiset() == ctx.id_to_file@.to_multiset(),
            r.declarations == ctx.ordered_decls->0,
            r.types == ctx.type_decls,
            r.functions == fun_decls,
            r.globals == global_decls,
            r.trait_decls == ctx.trait_decls,
            r.trait_impls == ctx.trait_impls,
            r.has_errors == (ctx.error_count > 0),
    {
        let TransCtx { type_decls, trait_decls, trait_impls, id_to_file, ordered_decls, error_count } =
            ctx;
        let id_to_file = sort_file_entries(id_to_file);
        let declarations = match ordered_decls {
            Some(d) => d,
            None => {
                proof {
                    assert(false);
                }
                Vec::new()
            },
        };
        GCrateData {
            name: crate_name,
            id_to_file,
            declarations,
            types: type_decls,
            functions: fun_decls,
            globals: global_decls,
            trait_decls,
            trait_impls,
            has_errors: error_count > 0,
        }
    }
}

/// The serialization of a snapshot with unstructured bodies: a single
/// object holding the crate name, the file table, the ordered declaration
/// groups and the declaration collections. The partial-result flag is not
/// part of the schema.
#[verifier::opaque]
pub open spec fn json_ullbc_crate(
    c: GCrateData<ullbc_ast::FunDecl, ullbc_ast::GlobalDecl>,
) -> Seq<char> {
    "{\"name\":"@ + json_string(c.name@) + ",\"id_to_file\":"@ + ("["@ + json_file_entry_list(c.id_to_file@) + "]"@) + ",\"declarations\":"@ + ("["@ + json_declaration_group_list(c.declarations@) + "]"@) + ",\"types\":"@ + ("["@ + json_type_decl_list(c.types@) + "]"@) + ",\"functions\":"@ + ("["@ + json_u_fun_decl_list(c.functions@) + "]"@) + ",\"globals\":"@ + ("["@ + json_u_global_decl_list(c.globals@) + "]"@) + ",\"trait_decls\":"@ + ("["@ + json_trait_decl_list(c.trait_decls@) + "]"@) + ",\"trait_impls\":"@ + ("["@ + json_trait_impl_list(c.trait_impls@) + "]"@) + "}"@
}

/// The serialization of a snapshot with structured bodies.
#[verifier::opaque]
pub open spec fn json_llbc_crate(c: GCrateData<llbc_ast::FunDecl, llbc_ast::GlobalDecl>) -> Seq<
    char,
> {
    "{\"name\":"@ + json_string(c.name@) + ",\"id_to_file\":"@ + ("["@ + json_file_entry_list(c.id_to_file@) + "]"@) + ",\"declarations\":"@ + ("["@ + json_declaration_group_list(c.declarations@) + "]"@) + ",\"types\":"@ + ("["@ + json_type_decl_list(c.types@) + "]"@) + ",\"functions\":"@ + ("["@ + json_fun_decl_list(c.functions@) + "]"@) + ",\"globals\":"@ + ("["@ + json_global_decl_list(c.globals@) + "]"@) + ",\"trait_decls\":"@ + ("["@ + json_trait_decl_list(c.trait_decls@) + "]"@) + ",\"trait_impls\":"@ + ("["@ + json_trait_impl_list(c.trait_impls@) + "]"@) + "}"@
}

impl GCrateData<ullbc_ast::FunDecl, ullbc_ast::GlobalDecl> {
    /// Serialize the snapshot. The output is a function of the snapshot
    /// alone: serializing the same snapshot twice yields identical text.
    #[verifier::rlimit(100)]
    pub fn to_json(&self) -> (r: String)
        ensures
            r@ == json_ullbc_crate(*self),
    {
        proof {
            reveal(json_ullbc_crate);
        }
        let mut out = String::new();
        out.append("{\"name\":");
        proof { assert(out@ =~= ("{\"name\":"@)); }
        write_string(&mut out, &self.name);
        proof { assert(out@ =~= ("{\"name\":"@ + json_string(self.name@))); }
        out.append(",\"id_to_file\":");
        proof { assert(out@ =~= ("{\"name\":"@ + json_string(self.name@) + ",\"id_to_file\":"@)); }
        write_file_entry_array(&mut out, &self.id_to_file);
        proof { assert(out@ =~= ("{\"name\":"@ + json_string(self.name@) + ",\"id_to_file\":"@ + ("["@ + json_file_entry_list(self.id_to_file@) + "]"@))); }
        out.append(",\"declarations\":");
        proof { assert(out@ =~= ("{\"name\":"@ + json_string(self.name@) + ",\"id_to_file\":"@ + ("["@ + json_file_entry_list(self.id_to_file@) + "]"@) + ",\"declarations\":"@)); }
        write_declaration_group_array(&mut out, &self.declarations);
        proof { assert(out@ =~= ("{\"name\":"@ + json_string(self.name@) + ",\"id_to_file\":"@ + ("["@ + json_file_entry_list(self.id_to_file@) + "]"@) + ",\"declarations\":"@ + ("["@ + json_declaration_group_list(self.declarations@) + "]"@))); }
        out.append(",\"types\":");
        proof { assert(out@ =~= ("{\"name\":"@ + json_string(self.name@) + ",\"id_to_file\":"@ + ("["@ + json_file_entry_list(self.id_to_file@) + "]"@) + ",\"declarations\":"@ + ("["@ + json_declaration_group_list(self.declarations@) + "]"@) + ",\"types\":"@)); }
        write_type_decl_array(&mut out, &self.types);
        proof { assert(out@ =~= ("{\"name\":"@ + json_string(self.name@) + ",\"id_to_file\":"@ + ("["@ + json_file_entry_list(self.id_to_file@) + "]"@) + ",\"declarations\":"@ + ("["@ + json_declaration_group_list(self.declarations@) + "]"@) + ",\"types\":"@ + ("["@ + json_type_decl_list(self.types@) + "]"@))); }
        out.append(",\"functions\":");
        proof { assert(out@ =~= ("{\"name\":"@ + json_string(self.name@) + ",\"id_to_file\":"@ + ("["@ + json_file_entry_list(self.id_to_file@) + "]"@) + ",\"declarations\":"@ + ("["@ + json_declaration_group_list(self.declarations@) + "]"@) + ",\"types\":"@ + ("["@ + json_type_decl_list(self.types@) + "]"@) + ",\"functions\":"@)); }
        write_u_fun_decl_array(&mut out, &self.functions);
        proof { assert(out@ =~= ("{\"name\":"@ + json_string(self.name@) + ",\"id_to_file\":"@ + ("["@ + json_file_entry_list(self.id_to_file@) + "]"@) + ",\"declarations\":"@ + ("["@ + json_declaration_group_list(self.declarations@) + "]"@) + ",\"types\":"@ + ("["@ + json_type_decl_list(self.types@) + "]"@) + ",\"functions\":"@ + ("["@ + json_u_fun_decl_list(self.functions@) + "]"@))); }
        out.append(",\"globals\":");
        proof { assert(out@ =~= ("{\"name\":"@ + json_string(self.name@) + ",\"id_to_file\":"@ + ("["@ + json_file_entry_list(self.id_to_file@) + "]"@) + ",\"declarations\":"@ + ("["@ + json_declaration_group_list(self.declarations@) + "]"@) + ",\"types\":"@ + ("["@ + json_type_decl_list(self.types@) + "]"@) + ",\"functions\":"@ + ("["@ + json_u_fun_decl_list(self.functions@) + "]"@) + ",\"globals\":"@)); }
        write_u_global_decl_array(&mut out, &self.globals);
        proof { assert(out@ =~= ("{\"name\":"@ + json_string(self.name@) + ",\"id_to_file\":"@ + ("["@ + json_file_entry_list(self.id_to_file@) + "]"@) + ",\"declarations\":"@ + ("["@ + json_declaration_group_list(self.declarations@) + "]"@) + ",\"types\":"@ + ("["@ + json_type_decl_list(self.types@) + "]"@) + ",\"functions\":"@ + ("["@ + json_u_fun_decl_list(self.functions@) + "]"@) + ",\"globals\":"@ + ("["@ + json_u_global_decl_list(self.globals@) + "]"@))); }
        out.append(",\"trait_decls\":");
        proof { assert(out@ =~= ("{\"name\":"@ + json_string(self.name@) + ",\"id_to_file\":"@ + ("["@ + json_file_entry_list(self.id_to_file@) + "]"@) + ",\"declarations\":"@ + ("["@ + json_declaration_group_list(self.declarations@) + "]"@) + ",\"types\":"@ + ("["@ + json_type_decl_list(self.types@) + "]"@) + ",\"functions\":"@ + ("["@ + json_u_fun_decl_list(self.functions@) + "]"@) + ",\"globals\":"@ + ("["@ + json_u_global_decl_list(self.globals@) + "]"@) + ",\"trait_decls\":"@)); }
        write_trait_decl_array(&mut out, &self.trait_decls);
        proof { assert(out@ =~= ("{\"name\":"@ + json_string(self.name@) + ",\"id_to_file\":"@ + ("["@ + json_file_entry_list(self.id_to_file@) + "]"@) + ",\"declarations\":"@ + ("["@ + json_declaration_group_list(self.declarations@) + "]"@) + ",\"types\":"@ + ("["@ + json_type_decl_list(self.types@) + "]"@) + ",\"functions\":"@ + ("["@ + json_u_fun_decl_list(self.functions@) + "]"@) + ",\"globals\":"@ + ("["@ + json_u_global_decl_list(self.globals@) + "]"@) + ",\"trait_decls\":"@ + ("["@ + json_trait_decl_list(self.trait_decls@) + "]"@))); }
        out.append(",\"trait_impls\":");
        proof { assert(out@ =~= ("{\"name\":"@ + json_string(self.name@) + ",\"id_to_file\":"@ + ("["@ + json_file_entry_list(self.id_to_file@) + "]"@) + ",\"declarations\":"@ + ("["@ + json_declaration_group_list(self.declarations@) + "]"@) + ",\"types\":"@ + ("["@ + json_type_decl_list(self.types@) + "]"@) + ",\"functions\":"@ + ("["@ + json_u_fun_decl_list(self.functions@) + "]"@) + ",\"globals\":"@ + ("["@ + json_u_global_decl_list(self.globals@) + "]"@) + ",\"trait_decls\":"@ + ("["@ + json_trait_decl_list(self.trait_decls@) + "]"@) + ",\"trait_impls\":"@)); }
        write_trait_impl_array(&mut out, &self.trait_impls);
        proof { assert(out@ =~= ("{\"name\":"@ + json_string(self.name@) + ",\"id_to_file\":"@ + ("["@ + json_file_entry_list(self.id_to_file@) + "]"@) + ",\"declarations\":"@ + ("["@ + json_declaration_group_list(self.declarations@) + "]"@) + ",\"types\":"@ + ("["@ + json_type_decl_list(self.types@) + "]"@) + ",\"functions\":"@ + ("["@ + json_u_fun_decl_list(self.functions@) + "]"@) + ",\"globals\":"@ + ("["@ + json_u_global_decl_list(self.globals@) + "]"@) + ",\"trait_decls\":"@ + ("["@ + json_trait_decl_list(self.trait_decls@) + "]"@) + ",\"trait_impls\":"@ + ("["@ + json_trait_impl_list(self.trait_impls@) + "]"@))); }
        out.append("}");
        proof { assert(out@ =~= ("{\"name\":"@ + json_string(self.name@) + ",\"id_to_file\":"@ + ("["@ + json_file_entry_list(self.id_to_file@) + "]"@) + ",\"declarations\":"@ + ("["@ + json_declaration_group_list(self.declarations@) + "]"@) + ",\"types\":"@ + ("["@ + json_type_decl_list(self.types@) + "]"@) + ",\"functions\":"@ + ("["@ + json_u_fun_decl_list(self.functions@) + "]"@) + ",\"globals\":"@ + ("["@ + json_u_global_decl_list(self.globals@) + "]"@) + ",\"trait_decls\":"@ + ("["@ + json_trait_decl_list(self.trait_decls@) + "]"@) + ",\"trait_impls\":"@ + ("["@ + json_trait_impl_list(self.trait_impls@) + "]"@) + "}"@)); }
        proof { assert(out@ =~= json_ullbc_crate(*self)); }
        out
    }
}

impl GCrateData<llbc_ast::FunDecl, llbc_ast::GlobalDecl> {
    /// Serialize the snapshot. The output is a function of the snapshot
    /// alone: serializing the same snapshot twice yields identical text.
    #[verifier::rlimit(100)]
    pub fn to_json(&self) -> (r: String)
        ensures
            r@ == json_llbc_crate(*self),
    {
        proof {
            reveal(json_llbc_crate);
        }
        let mut out = String::new();
        out.append("{\"name\":");
        proof { assert(out@ =~= ("{\"name\":"@)); }
        write_string(&mut out, &self.name);
        proof { assert(out@ =~= ("{\"name\":"@ + json_string(self.name@))); }
        out.append(",\"id_to_file\":");
        proof { assert(out@ =~= ("{\"name\":"@ + json_string(self.name@) + ",\"id_to_file\":"@)); }
        write_file_entry_array(&mut out, &self.id_to_file);
        proof { assert(out@ =~= ("{\"name\":"@ + json_string(self.name@) + ",\"id_to_file\":"@ + ("["@ + json_file_entry_list(self.id_to_file@) + "]"@))); }
        out.append(",\"declarations\":");
        proof { assert(out@ =~= ("{\"name\":"@ + json_string(self.name@) + ",\"id_to_file\":"@ + ("["@ + json_file_entry_list(self.id_to_file@) + "]"@) + ",\"declarations\":"@)); }
        write_declaration_group_array(&mut out, &self.declarations);
        proof { assert(out@ =~= ("{\"name\":"@ + json_string(self.name@) + ",\"id_to_file\":"@ + ("["@ + json_file_entry_list(self.id_to_file@) + "]"@) + ",\"declarations\":"@ + ("["@ + json_declaration_group_list(self.declarations@) + "]"@))); }
        out.append(",\"types\":");
        proof { assert(out@ =~= ("{\"name\":"@ + json_string(self.name@) + ",\"id_to_file\":"@ + ("["@ + json_file_entry_list(self.id_to_file@) + "]"@) + ",\"declarations\":"@ + ("["@ + json_declaration_group_list(self.declarations@) + "]"@) + ",\"types\":"@)); }
        write_type_decl_array(&mut out, &self.types);
        proof { assert(out@ =~= ("{\"name\":"@ + json_string(self.name@) + ",\"id_to_file\":"@ + ("["@ + json_file_entry_list(self.id_to_file@) + "]"@) + ",\"declarations\":"@ + ("["@ + json_declaration_group_list(self.declarations@) + "]"@) + ",\"types\":"@ + ("["@ + json_type_decl_list(self.types@) + "]"@))); }
        out.append(",\"functions\":");
        proof { assert(out@ =~= ("{\"name\":"@ + json_string(self.name@) + ",\"id_to_file\":"@ + ("["@ + json_file_entry_list(self.id_to_file@) + "]"@) + ",\"declarations\":"@ + ("["@ + json_declaration_group_list(self.declarations@) + "]"@) + ",\"types\":"@ + ("["@ + json_type_decl_list(self.types@) + "]"@) + ",\"functions\":"@)); }
        write_fun_decl_array(&mut out, &self.functions);
        proof { assert(out@ =~= ("{\"name\":"@ + json_string(self.name@) + ",\"id_to_file\":"@ + ("["@ + json_file_entry_list(self.id_to_file@) + "]"@) + ",\"declarations\":"@ + ("["@ + json_declaration_group_list(self.declarations@) + "]"@) + ",\"types\":"@ + ("["@ + json_type_decl_list(self.types@) + "]"@) + ",\"functions\":"@ + ("["@ + json_fun_decl_list(self.functions@) + "]"@))); }
        out.append(",\"globals\":");
        proof { assert(out@ =~= ("{\"name\":"@ + json_string(self.name@) + ",\"id_to_file\":"@ + ("["@ + json_file_entry_list(self.id_to_file@) + "]"@) + ",\"declarations\":"@ + ("["@ + json_declaration_group_list(self.declarations@) + "]"@) + ",\"types\":"@ + ("["@ + json_type_decl_list(self.types@) + "]"@) + ",\"functions\":"@ + ("["@ + json_fun_decl_list(self.functions@) + "]"@) + ",\"globals\":"@)); }
        write_global_decl_array(&mut out, &self.globals);
        proof { assert(out@ =~= ("{\"name\":"@ + json_string(self.name@) + ",\"id_to_file\":"@ + ("["@ + json_file_entry_list(self.id_to_file@) + "]"@) + ",\"declarations\":"@ + ("["@ + json_declaration_group_list(self.declarations@) + "]"@) + ",\"types\":"@ + ("["@ + json_type_decl_list(self.types@) + "]"@) + ",\"functions\":"@ + ("["@ + json_fun_decl_list(self.functions@) + "]"@) + ",\"globals\":"@ + ("["@ + json_global_decl_list(self.globals@) + "]"@))); }
        out.append(",\"trait_decls\":");
        proof { assert(out@ =~= ("{\"name\":"@ + json_string(self.name@) + ",\"id_to_file\":"@ + ("["@ + json_file_entry_list(self.id_to_file@) + "]"@) + ",\"declarations\":"@ + ("["@ + json_declaration_group_list(self.declarations@) + "]"@) + ",\"types\":"@ + ("["@ + json_type_decl_list(self.types@) + "]"@) + ",\"functions\":"@ + ("["@ + json_fun_decl_list(self.functions@) + "]"@) + ",\"globals\":"@ + ("["@ + json_global_decl_list(self.globals@) + "]"@) + ",\"trait_decls\":"@)); }
        write_trait_decl_array(&mut out, &self.trait_decls);
        proof { assert(out@ =~= ("{\"name\":"@ + json_string(self.name@) + ",\"id_to_file\":"@ + ("["@ + json_file_entry_list(self.id_to_file@) + "]"@) + ",\"declarations\":"@ + ("["@ + json_declaration_group_list(self.declarations@) + "]"@) + ",\"types\":"@ + ("["@ + json_type_decl_list(self.types@) + "]"@) + ",\"functions\":"@ + ("["@ + json_fun_decl_list(self.functions@) + "]"@) + ",\"globals\":"@ + ("["@ + json_global_decl_list(self.globals@) + "]"@) + ",\"trait_decls\":"@ + ("["@ + json_trait_decl_list(self.trait_decls@) + "]"@))); }
        out.append(",\"trait_impls\":");
        proof { assert(out@ =~= ("{\"name\":"@ + json_string(self.name@) + ",\"id_to_file\":"@ + ("["@ + json_file_entry_list(self.id_to_file@) + "]"@) + ",\"declarations\":"@ + ("["@ + json_declaration_group_list(self.declarations@) + "]"@) + ",\"types\":"@ + ("["@ + json_type_decl_list(self.types@) + "]"@) + ",\"functions\":"@ + ("["@ + json_fun_decl_list(self.functions@) + "]"@) + ",\"globals\":"@ + ("["@ + json_global_decl_list(self.globals@) + "]"@) + ",\"trait_decls\":"@ + ("["@ + json_trait_decl_list(self.trait_decls@) + "]"@) + ",\"trait_impls\":"@)); }
        write_trait_impl_array(&mut out, &self.trait_impls);
        proof { assert(out@ =~= ("{\"name\":"@ + json_string(self.name@) + ",\"id_to_file\":"@ + ("["@ + json_file_entry_list(self.id_to_file@) + "]"@) + ",\"declarations\":"@ + ("["@ + json_declaration_group_list(self.declarations@) + "]"@) + ",\"types\":"@ + ("["@ + json_type_decl_list(self.types@) + "]"@) + ",\"functions\":"@ + ("["@ + json_fun_decl_list(self.functions@) + "]"@) + ",\"globals\":"@ + ("["@ + json_global_decl_list(self.globals@) + "]"@) + ",\"trait_decls\":"@ + ("["@ + json_trait_decl_list(self.trait_decls@) + "]"@) + ",\"trait_impls\":"@ + ("["@ + json_trait_impl_list(self.trait_impls@) + "]"@))); }
        out.append("}");
        proof { assert(out@ =~= ("{\"name\":"@ + json_string(self.name@) + ",\"id_to_file\":"@ + ("["@ + json_file_entry_list(self.id_to_file@) + "]"@) + ",\"declarations\":"@ + ("["@ + json_declaration_group_list(self.declarations@) + "]"@) + ",\"types\":"@ + ("["@ + json_type_decl_list(self.types@) + "]"@) + ",\"functions\":"@ + ("["@ + json_fun_decl_list(self.functions@) + "]"@) + ",\"globals\":"@ + ("["@ + json_global_decl_list(self.globals@) + "]"@) + ",\"trait_decls\":"@ + ("["@ + json_trait_decl_list(self.trait_decls@) + "]"@) + ",\"trait_impls\":"@ + ("["@ + json_trait_impl_list(self.trait_impls@) + "]"@) + "}"@)); }
        proof { assert(out@ =~= json_llbc_crate(*self)); }
        out
    }
}

/// The two kinds of crate snapshot: unstructured bodies (before control
/// flow is reconstructed) or structured bodies.
pub enum CrateData {
    ULLBC(GCrateData<ullbc_ast::FunDecl, ullbc_ast::GlobalDecl>),
    LLBC(GCrateData<llbc_ast::FunDecl, llbc_ast::GlobalDecl>),
}

/// The serialization of a crate snapshot of either kind.
pub open spec fn json_crate_data(c: CrateData) -> Seq<char> {
    match c {
        CrateData::ULLBC(d) => json_ullbc_crate(d),
        CrateData::LLBC(d) => json_llbc_crate(d),
    }
}

impl CrateData {
    /// Assemble a snapshot with unstructured bodies.
    pub fn new_ullbc(
        ctx: TransCtx,
        crate_name: String,
        fun_decls: Vec<ullbc_ast::FunDecl>,
        global_decls: Vec<ullbc_ast::GlobalDecl>,
    ) -> (r: Self)
        requires
            ctx.ordered_decls is Some,
        ensures
            r is ULLBC,
            r->ULLBC_0.name == crate_name,
            file_entries_sorted(r->ULLBC_0.id_to_file@),
            r->ULLBC_0.id_to_file@.to_multiset() == ctx.id_to_file@.to_multiset(),
            r->ULLBC_0.declarations == ctx.ordered_decls->0,
            r->ULLBC_0.types == ctx.type_decls,
            r->ULLBC_0.functions == fun_decls,
            r->ULLBC_0.globals == global_decls,
            r->ULLBC_0.trait_decls == ctx.trait_decls,
            r->ULLBC_0.trait_impls == ctx.trait_impls,
            r->ULLBC_0.has_errors == (ctx.error_count > 0),
    {
        Self::ULLBC(GCrateData::new(ctx, crate_name, fun_decls, global_decls))
    }

    /// Assemble a snapshot with structured bodies.
    pub fn new_llbc(
        ctx: TransCtx,
        crate_name: String,
        fun_decls: Vec<llbc_ast::FunDecl>,
        global_decls: Vec<llbc_ast::GlobalDecl>,
    ) -> (r: Self)
        requires
            ctx.ordered_decls is Some,
        ensures
            r is LLBC,
            r->LLBC_0.name == crate_name,
            file_entries_sorted(r->LLBC_0.id_to_file@),
            r->LLBC_0.id_to_file@.to_multiset() == ctx.id_to_file@.to_multiset(),
            r->LLBC_0.declarations == ctx.ordered_decls->0,
            r->LLBC_0.types == ctx.type_decls,
            r->LLBC_0.functions == fun_decls,
            r->LLBC_0.globals == global_decls,
            r->LLBC_0.trait_decls == ctx.trait_decls,
            r->LLBC_0.trait_impls == ctx.trait_impls,
            r->LLBC_0.has_errors == (ctx.error_count > 0),
    {
        Self::LLBC(GCrateData::new(ctx, crate_name, fun_decls, global_decls))
    }

    /// Whether this snapshot only partially describes the input crate.
    pub fn has_errors(&self) -> (r: bool)
        ensures
            r == (match *self {
                CrateData::ULLBC(d) => d.has_errors,
                CrateData::LLBC(d) => d.has_errors,
            }),
    {
        match self {
            CrateData::ULLBC(d) => d.has_errors,
            CrateData::LLBC(d) => d.has_errors,
        }
    }

    /// Serialize the snapshot. The output is a function of the snapshot
    /// alone.
    pub fn to_json(&self) -> (r: String)
        ensures
            r@ == json_crate_data(*self),
    {
        match self {
            CrateData::ULLBC(d) => d.to_json(),
            CrateData::LLBC(d) => d.to_json(),
        }
    }
}

/// Determinism of the export: any two serializations of the same snapshot
/// are the same text, character for character. This holds because the
/// serialization of a snapshot is specified as a function of its value.
pub proof fn lemma_export_deterministic(c: CrateData, out1: Seq<char>, out2: Seq<char>)
    requires
        out1 == json_crate_data(c),
        out2 == json_crate_data(c),
    ensures
        out1 == out2,
{
}


/// Schema omission, variant level: the serialization of a variant does not
/// depend on its runtime discriminant. Two variants that agree on
/// everything else serialize identically.
pub proof fn lemma_variant_json_omits_discriminant(v1: Variant, v2: Variant)
    requires
        v1.meta == v2.meta,
        v1.name == v2.name,
        v1.fields == v2.fields,
    ensures
        json_variant(v1) == json_variant(v2),
{
    reveal(json_variant);
}

/// Schema omission, variant-list level: two variant lists that agree on
/// everything but the runtime discriminants serialize identically.
pub proof fn lemma_variant_list_json_omits_discriminants(s1: Seq<Variant>, s2: Seq<Variant>)
    requires
        s1.len() == s2.len(),
        forall|i: int|
            0 <= i < s1.len() ==> (#[trigger] s1[i]).meta == s2[i].meta && s1[i].name == s2[i].name
                && s1[i].fields == s2[i].fields,
    ensures
        json_variant_list(s1) == json_variant_list(s2),
    decreases s1.len(),
{
    reveal(json_variant_list);
    if s1.len() > 0 {
        lemma_variant_list_json_omits_discriminants(s1.drop_last(), s2.drop_last());
        lemma_variant_json_omits_discriminant(s1.last(), s2.last());
        lemma_variant_json_omits_discriminant(s1[0], s2[0]);
    }
}

} // verus!
