use charon::export::{CrateData, GCrateData};
use charon::ids::{BlockId, Disambiguator, FileId, TypeDeclId, VarId};
use charon::json::{write_i128, write_string, write_u128};
use charon::llbc_ast::{copy_place, Place, ProjectionElem, RawStatement, Rvalue, Statement, Switch};
use charon::llbc_ast::Operand;
use charon::meta::{combine_meta, FileName, ItemMeta, Loc, Meta, Span};
use charon::names::{Name, PathElem};
use charon::remove_read_discriminant::{transform, update_statement};
use charon::serialize::{write_name, write_place, write_region, write_ty, write_variant};
use charon::translate_ctx::TransCtx;
use charon::types::{
    DeBruijnId, GenericArgs, GenericParams, IntegerTy, LiteralTy, Predicates, RefKind, Region,
    Ty, TypeDecl, TypeDeclKind, Variant,
};
use charon::ids::RegionId;
use charon::ullbc_ast::{BlockData, RawTerminator, Terminator};
use charon::values::ScalarValue;

fn mk_meta(line: usize) -> Meta {
    Meta {
        span: Span {
            file_id: FileId { index: 0 },
            beg: Loc { line, col: 0 },
            end: Loc { line, col: 1 },
        },
        generated_from_span: None,
    }
}

fn empty_generics() -> GenericParams {
    GenericParams {
        regions: Vec::new(),
        types: Vec::new(),
        const_generics: Vec::new(),
        trait_clauses: Vec::new(),
    }
}

fn empty_preds() -> Predicates {
    Predicates {
        regions_outlive: Vec::new(),
        types_outlive: Vec::new(),
        trait_type_constraints: Vec::new(),
    }
}

fn mk_enum_decl(id: usize, discriminants: &[u128]) -> TypeDecl {
    let mut variants = Vec::new();
    for (i, d) in discriminants.iter().enumerate() {
        variants.push(Variant {
            meta: mk_meta(1),
            name: format!("V{}", i),
            fields: Vec::new(),
            discriminant: *d,
        });
    }
    TypeDecl {
        def_id: TypeDeclId { index: id },
        item_meta: ItemMeta { meta: mk_meta(1), attributes: Vec::new() },
        is_local: true,
        name: Name {
            name: vec![PathElem::Ident("E".to_string(), Disambiguator { index: 0 })],
        },
        generics: empty_generics(),
        preds: empty_preds(),
        kind: TypeDeclKind::Enum(variants),
    }
}

fn mk_ctx(type_decls: Vec<TypeDecl>, files: Vec<(usize, &str)>, error_count: u64) -> TransCtx {
    let mut id_to_file = Vec::new();
    for (id, name) in files {
        id_to_file.push((FileId { index: id }, FileName::Local(name.to_string())));
    }
    TransCtx {
        type_decls,
        trait_decls: Vec::new(),
        trait_impls: Vec::new(),
        id_to_file,
        ordered_decls: Some(Vec::new()),
        error_count,
    }
}

#[test]
fn empty_crate_serializes_exactly() {
    let ctx = mk_ctx(Vec::new(), Vec::new(), 0);
    let data = CrateData::new_llbc(ctx, "c".to_string(), Vec::new(), Vec::new());
    assert!(!data.has_errors());
    assert_eq!(
        data.to_json(),
        "{\"name\":\"c\",\"id_to_file\":[],\"declarations\":[],\"types\":[],\
         \"functions\":[],\"globals\":[],\"trait_decls\":[],\"trait_impls\":[]}"
    );
}

#[test]
fn export_is_deterministic() {
    let mk = || {
        let ctx = mk_ctx(
            vec![mk_enum_decl(0, &[0, 1])],
            vec![(1, "b.rs"), (0, "a.rs")],
            0,
        );
        CrateData::new_llbc(ctx, "demo".to_string(), Vec::new(), Vec::new())
    };
    let first = mk().to_json();
    let again = mk().to_json();
    // Exporting the same snapshot twice, and exporting a snapshot built
    // twice from the same input, both give byte-identical output.
    let snapshot = mk();
    assert_eq!(snapshot.to_json(), snapshot.to_json());
    assert_eq!(first, again);
    assert_eq!(first.as_bytes(), again.as_bytes());
}

#[test]
fn file_table_is_sorted_by_id() {
    let ctx = mk_ctx(Vec::new(), vec![(2, "c.rs"), (0, "a.rs"), (1, "b.rs")], 0);
    let data = CrateData::new_llbc(ctx, "demo".to_string(), Vec::new(), Vec::new());
    match &data {
        CrateData::LLBC(d) => {
            let ids: Vec<usize> = d.id_to_file.iter().map(|e| e.0.index).collect();
            assert_eq!(ids, vec![0, 1, 2]);
            match &d.id_to_file[0].1 {
                FileName::Local(n) => assert_eq!(n, "a.rs"),
                _ => panic!("expected a local file name"),
            }
        }
        _ => panic!("expected a structured snapshot"),
    }
    let json = data.to_json();
    let a = json.find("a.rs").unwrap();
    let b = json.find("b.rs").unwrap();
    let c = json.find("c.rs").unwrap();
    assert!(a < b && b < c);
}

#[test]
fn snapshot_never_contains_discriminants() {
    // An enum with an unmistakable discriminant value: the exported text
    // contains neither the field name nor the value, whether or not the
    // pass ran.
    let ctx = mk_ctx(vec![mk_enum_decl(0, &[0, 77777])], vec![(0, "a.rs")], 0);
    let data = CrateData::new_llbc(ctx, "demo".to_string(), Vec::new(), Vec::new());
    let json = data.to_json();
    assert!(!json.contains("discriminant"));
    assert!(!json.contains("77777"));

    let ctx2 = mk_ctx(vec![mk_enum_decl(0, &[0, 77777])], vec![(0, "a.rs")], 0);
    let mut funs = Vec::new();
    let mut globals = Vec::new();
    let mut ctx2 = ctx2;
    transform(&mut ctx2, &mut funs, &mut globals);
    let data2 = CrateData::new_llbc(ctx2, "demo".to_string(), funs, globals);
    assert!(!data2.to_json().contains("77777"));
}

#[test]
fn variants_differing_only_in_discriminant_serialize_identically() {
    let v1 = Variant {
        meta: mk_meta(3),
        name: "A".to_string(),
        fields: Vec::new(),
        discriminant: 0,
    };
    let v2 = Variant {
        meta: mk_meta(3),
        name: "A".to_string(),
        fields: Vec::new(),
        discriminant: 123456,
    };
    let mut s1 = String::new();
    write_variant(&mut s1, &v1);
    let mut s2 = String::new();
    write_variant(&mut s2, &v2);
    assert_eq!(s1, s2);
}

#[test]
fn partial_crates_still_export() {
    // A crate with one malformed occurrence still exports, marked partial.
    let decls = vec![mk_enum_decl(0, &[0])];
    let assign = Statement {
        meta: mk_meta(10),
        content: RawStatement::Assign(
            Place { var_id: VarId { index: 1 }, projection: Vec::new() },
            Rvalue::Discriminant(
                Place { var_id: VarId { index: 0 }, projection: Vec::new() },
                TypeDeclId { index: 0 },
            ),
        ),
    };
    let bad = Statement {
        meta: mk_meta(10),
        content: RawStatement::Sequence(
            Box::new(assign),
            Box::new(Statement { meta: mk_meta(11), content: RawStatement::Return }),
        ),
    };
    let (_, errors) = update_statement(&decls, bad);
    assert_eq!(errors, 1);
    let ctx = mk_ctx(decls, vec![(0, "a.rs")], errors);
    let data = CrateData::new_llbc(ctx, "demo".to_string(), Vec::new(), Vec::new());
    assert!(data.has_errors());
    assert!(data.to_json().len() > 0);
}

#[test]
fn strings_are_escaped() {
    let mut out = String::new();
    write_string(&mut out, &"a\"b\\c\nd\te\r".to_string());
    assert_eq!(out, "\"a\\\"b\\\\c\\nd\\te\\r\"");
    let mut out2 = String::new();
    write_string(&mut out2, &"\u{1}x".to_string());
    assert_eq!(out2, "\"\\u0001x\"");
    let mut out3 = String::new();
    write_string(&mut out3, &"\u{1f}".to_string());
    assert_eq!(out3, "\"\\u001f\"");
}

#[test]
fn numbers_serialize_in_decimal() {
    let mut out = String::new();
    write_u128(&mut out, 0);
    out.push(' ');
    write_u128(&mut out, 1234567890123456789);
    assert_eq!(out, "0 1234567890123456789");
    let mut neg = String::new();
    write_i128(&mut neg, -1);
    neg.push(' ');
    write_i128(&mut neg, i128::MIN);
    neg.push(' ');
    write_i128(&mut neg, 42);
    assert_eq!(neg, "-1 -170141183460469231731687303715884105728 42");
}

#[test]
fn scalar_values_serialize_with_their_type() {
    let mut out = String::new();
    charon::serialize::write_scalar_value(&mut out, &ScalarValue::I8(-1));
    assert_eq!(out, "{\"I8\":-1}");
    let mut out2 = String::new();
    charon::serialize::write_scalar_value(&mut out2, &ScalarValue::U32(7));
    assert_eq!(out2, "{\"U32\":7}");
}

#[test]
fn places_and_copies_serialize_identically() {
    let p = Place {
        var_id: VarId { index: 4 },
        projection: vec![ProjectionElem::Deref, ProjectionElem::Field(charon::ids::FieldId {
            index: 2,
        })],
    };
    let q = copy_place(&p);
    let mut s1 = String::new();
    write_place(&mut s1, &p);
    let mut s2 = String::new();
    write_place(&mut s2, &q);
    assert_eq!(s1, s2);
    assert_eq!(s1, "{\"var_id\":4,\"projection\":[\"Deref\",{\"Field\":2}]}");
}

#[test]
fn combine_meta_takes_the_hull_within_one_file() {
    let m1 = Meta {
        span: Span {
            file_id: FileId { index: 0 },
            beg: Loc { line: 3, col: 5 },
            end: Loc { line: 3, col: 9 },
        },
        generated_from_span: None,
    };
    let m2 = Meta {
        span: Span {
            file_id: FileId { index: 0 },
            beg: Loc { line: 2, col: 1 },
            end: Loc { line: 2, col: 7 },
        },
        generated_from_span: None,
    };
    let c = combine_meta(&m1, &m2);
    assert_eq!(c.span.beg, Loc { line: 2, col: 1 });
    assert_eq!(c.span.end, Loc { line: 3, col: 9 });

    let other_file = Meta {
        span: Span {
            file_id: FileId { index: 1 },
            beg: Loc { line: 1, col: 0 },
            end: Loc { line: 1, col: 1 },
        },
        generated_from_span: None,
    };
    let d = combine_meta(&m1, &other_file);
    assert_eq!(d.span, m1.span);
}

#[test]
fn ullbc_snapshots_serialize_too() {
    let ctx = mk_ctx(Vec::new(), vec![(0, "a.rs")], 0);
    let body = vec![BlockData {
        statements: Vec::new(),
        terminator: Terminator {
            meta: mk_meta(1),
            content: RawTerminator::Switch(
                Operand::Move(Place { var_id: VarId { index: 0 }, projection: Vec::new() }),
                IntegerTy::U8,
                vec![(ScalarValue::U8(0), BlockId { index: 1 })],
                BlockId { index: 2 },
            ),
        },
    }];
    let fun = charon::ullbc_ast::FunDecl {
        def_id: charon::ids::FunDeclId { index: 0 },
        item_meta: ItemMeta { meta: mk_meta(1), attributes: Vec::new() },
        is_local: true,
        name: Name {
            name: vec![PathElem::Ident("f".to_string(), Disambiguator { index: 0 })],
        },
        signature: charon::types::FunSig {
            is_unsafe: false,
            is_closure: false,
            closure_info: None,
            generics: empty_generics(),
            preds: empty_preds(),
            parent_params_info: None,
            inputs: Vec::new(),
            output: charon::types::Ty::Never,
        },
        body: Some(body),
    };
    let data = CrateData::new_ullbc(ctx, "demo".to_string(), vec![fun], Vec::new());
    let json = data.to_json();
    assert!(json.contains("\"Goto\"") == false);
    assert!(json.contains("\"Switch\""));
    let again = match &data {
        CrateData::ULLBC(d) => d.to_json(),
        _ => panic!("expected an unstructured snapshot"),
    };
    assert_eq!(json, again);
}

#[test]
fn assembled_snapshot_carries_collections_through() {
    let ctx = mk_ctx(vec![mk_enum_decl(0, &[0])], vec![(0, "a.rs")], 0);
    let d: GCrateData<charon::llbc_ast::FunDecl, charon::llbc_ast::GlobalDecl> =
        GCrateData::new(ctx, "demo".to_string(), Vec::new(), Vec::new());
    assert_eq!(d.name, "demo");
    assert_eq!(d.types.len(), 1);
    assert_eq!(d.id_to_file.len(), 1);
    assert!(!d.has_errors);
    assert_eq!(d.declarations.len(), 0);
}

#[test]
fn nested_types_serialize_exactly() {
    let mut out = String::new();
    write_region(&mut out, &Region::BVar(DeBruijnId { index: 1 }, RegionId { index: 2 }));
    assert_eq!(out, "{\"BVar\":[1,2]}");

    let ty = Ty::Ref(
        Region::Erased,
        Box::new(Ty::Literal(LiteralTy::Integer(IntegerTy::U8))),
        RefKind::Shared,
    );
    let mut out2 = String::new();
    write_ty(&mut out2, &ty);
    assert_eq!(
        out2,
        "{\"Ref\":[\"Erased\",{\"Literal\":{\"Integer\":\"U8\"}},\"Shared\"]}"
    );

    let adt = Ty::Adt(
        charon::types::TypeId::Adt(TypeDeclId { index: 3 }),
        GenericArgs {
            regions: Vec::new(),
            types: vec![Ty::Never],
            const_generics: Vec::new(),
            trait_refs: Vec::new(),
        },
    );
    let mut out3 = String::new();
    write_ty(&mut out3, &adt);
    assert_eq!(
        out3,
        "{\"Adt\":[{\"Adt\":3},{\"regions\":[],\"types\":[\"Never\"],\
         \"const_generics\":[],\"trait_refs\":[]}]}"
    );
}

#[test]
fn names_serialize_as_bare_path_arrays() {
    let name = Name {
        name: vec![
            PathElem::Ident("krate".to_string(), Disambiguator { index: 0 }),
            PathElem::Ident("item".to_string(), Disambiguator { index: 1 }),
        ],
    };
    let mut out = String::new();
    write_name(&mut out, &name);
    assert_eq!(
        out,
        "[{\"Ident\":[\"krate\",0]},{\"Ident\":[\"item\",1]}]"
    );
}
