use charon::ids::{Disambiguator, FileId, TypeDeclId, VarId, VariantId};
use charon::llbc_ast::{
    has_read_discriminant, new_sequence, Operand, Place, RawStatement, Rvalue, Statement, Switch,
};
use charon::meta::{FileName, ItemMeta, Loc, Meta, Span};
use charon::names::{Name, PathElem};
use charon::llbc_ast::{FunDecl, GlobalDecl};
use charon::remove_read_discriminant::{
    count_distinct_discrs, lookup_variant, map_arm_values, transform, update_statement,
};
use charon::serialize::write_statement;
use charon::translate_ctx::TransCtx;
use charon::types::{
    FunSig, GenericParams, IntegerTy, LiteralTy, Predicates, Ty, TypeDecl, TypeDeclKind, Variant,
};
use charon::values::ScalarValue;

fn mk_meta(line: usize) -> Meta {
    Meta {
        span: Span {
            file_id: FileId { index: 0 },
            beg: Loc { line, col: 0 },
            end: Loc { line, col: 1 },
        },
        generated_from_span: None,
    }
}

fn stmt(line: usize, content: RawStatement) -> Statement {
    Statement { meta: mk_meta(line), content }
}

fn place(var: usize) -> Place {
    Place { var_id: VarId { index: var }, projection: Vec::new() }
}

fn empty_generics() -> GenericParams {
    GenericParams {
        regions: Vec::new(),
        types: Vec::new(),
        const_generics: Vec::new(),
        trait_clauses: Vec::new(),
    }
}

fn empty_preds() -> Predicates {
    Predicates {
        regions_outlive: Vec::new(),
        types_outlive: Vec::new(),
        trait_type_constraints: Vec::new(),
    }
}

fn mk_variant(name: &str, discriminant: u128) -> Variant {
    Variant { meta: mk_meta(1), name: name.to_string(), fields: Vec::new(), discriminant }
}

fn mk_enum_decl(id: usize, discriminants: &[u128]) -> TypeDecl {
    let mut variants = Vec::new();
    for (i, d) in discriminants.iter().enumerate() {
        variants.push(mk_variant(&format!("V{}", i), *d));
    }
    TypeDecl {
        def_id: TypeDeclId { index: id },
        item_meta: ItemMeta { meta: mk_meta(1), attributes: Vec::new() },
        is_local: true,
        name: Name {
            name: vec![PathElem::Ident("E".to_string(), Disambiguator { index: 0 })],
        },
        generics: empty_generics(),
        preds: empty_preds(),
        kind: TypeDeclKind::Enum(variants),
    }
}

fn mk_opaque_decl(id: usize) -> TypeDecl {
    TypeDecl {
        def_id: TypeDeclId { index: id },
        item_meta: ItemMeta { meta: mk_meta(1), attributes: Vec::new() },
        is_local: false,
        name: Name {
            name: vec![PathElem::Ident("O".to_string(), Disambiguator { index: 0 })],
        },
        generics: empty_generics(),
        preds: empty_preds(),
        kind: TypeDeclKind::Opaque,
    }
}

/// An occurrence of the raw idiom: `t := discriminant(x, adt); switch t`.
fn occurrence(
    adt: usize,
    arms: Vec<(Vec<ScalarValue>, Statement)>,
    otherwise: Statement,
) -> Statement {
    let assign = stmt(
        10,
        RawStatement::Assign(place(1), Rvalue::Discriminant(place(0), TypeDeclId { index: adt })),
    );
    let switch = stmt(
        11,
        RawStatement::Switch(Switch::SwitchInt(
            Operand::Move(place(1)),
            IntegerTy::I8,
            arms,
            Box::new(otherwise),
        )),
    );
    stmt(10, RawStatement::Sequence(Box::new(assign), Box::new(switch)))
}

fn stmt_json(st: &Statement) -> String {
    let mut out = String::new();
    write_statement(&mut out, st);
    out
}

fn case(values: Vec<ScalarValue>, line: usize) -> (Vec<ScalarValue>, Statement) {
    (values, stmt(line, RawStatement::Nop))
}

#[test]
fn to_bits_is_width_exact() {
    assert_eq!(ScalarValue::I8(-1).to_bits(), 255);
    assert_eq!(ScalarValue::I8(-128).to_bits(), 128);
    assert_eq!(ScalarValue::I16(-1).to_bits(), 65535);
    assert_eq!(ScalarValue::I32(-1).to_bits(), 0xffff_ffff);
    assert_eq!(ScalarValue::Isize(-1).to_bits(), u64::MAX as u128);
    assert_eq!(ScalarValue::U8(7).to_bits(), 7);
    assert_eq!(ScalarValue::I8(5).to_bits(), 5);
    assert_eq!(ScalarValue::U128(u128::MAX).to_bits(), u128::MAX);
}

#[test]
fn lookup_matches_bit_patterns() {
    let decl = mk_enum_decl(0, &[0, 1, 255]);
    let variants = match &decl.kind {
        TypeDeclKind::Enum(v) => v,
        _ => unreachable!(),
    };
    // A signed 8-bit -1 case value matches the variant whose stored
    // discriminant is the bit pattern 255.
    let bits = ScalarValue::I8(-1).to_bits();
    assert_eq!(lookup_variant(variants, bits), Some(VariantId { index: 2 }));
    assert_eq!(lookup_variant(variants, 1), Some(VariantId { index: 1 }));
    assert_eq!(lookup_variant(variants, 9), None);
    assert_eq!(count_distinct_discrs(variants), 3);
}

#[test]
fn lookup_prefers_last_duplicate() {
    let decl = mk_enum_decl(0, &[4, 4]);
    let variants = match &decl.kind {
        TypeDeclKind::Enum(v) => v,
        _ => unreachable!(),
    };
    assert_eq!(lookup_variant(variants, 4), Some(VariantId { index: 1 }));
    assert_eq!(count_distinct_discrs(variants), 1);
    let (ids, errors) = map_arm_values(variants, &vec![ScalarValue::I8(4)]);
    assert_eq!(errors, 0);
    assert_eq!(ids, vec![VariantId { index: 1 }]);
}

#[test]
fn full_coverage_drops_otherwise() {
    let decls = vec![mk_enum_decl(0, &[0, 1, 2])];
    let body = occurrence(
        0,
        vec![
            case(vec![ScalarValue::I8(0)], 20),
            case(vec![ScalarValue::I8(1)], 21),
            case(vec![ScalarValue::I8(2)], 22),
        ],
        stmt(23, RawStatement::Return),
    );
    let (rewritten, errors) = update_statement(&decls, body);
    assert_eq!(errors, 0);
    assert!(!has_read_discriminant(&rewritten));
    match &rewritten.content {
        RawStatement::Switch(Switch::Match(p, arms, otherwise)) => {
            assert_eq!(p.var_id.index, 0);
            assert_eq!(arms.len(), 3);
            assert_eq!(arms[0].0, vec![VariantId { index: 0 }]);
            assert_eq!(arms[1].0, vec![VariantId { index: 1 }]);
            assert_eq!(arms[2].0, vec![VariantId { index: 2 }]);
            assert!(otherwise.is_none());
        }
        _ => panic!("expected a match on the enum place"),
    }
}

#[test]
fn partial_coverage_keeps_otherwise() {
    let decls = vec![mk_enum_decl(0, &[0, 1, 2])];
    let body = occurrence(
        0,
        vec![case(vec![ScalarValue::I8(0)], 20), case(vec![ScalarValue::I8(1)], 21)],
        stmt(23, RawStatement::Return),
    );
    let (rewritten, errors) = update_statement(&decls, body);
    assert_eq!(errors, 0);
    match &rewritten.content {
        RawStatement::Switch(Switch::Match(_, arms, otherwise)) => {
            assert_eq!(arms.len(), 2);
            match otherwise {
                Some(o) => assert!(matches!(o.content, RawStatement::Return)),
                None => panic!("the otherwise branch must be kept"),
            }
        }
        _ => panic!("expected a match on the enum place"),
    }
}

#[test]
fn signed_negative_discriminant_matches() {
    // A signed 8-bit enum with a variant of discriminant -1, stored as the
    // bit pattern 255: a switch case written as I8(-1) must match it.
    let decls = vec![mk_enum_decl(0, &[0, 255])];
    let body = occurrence(
        0,
        vec![case(vec![ScalarValue::I8(0)], 20), case(vec![ScalarValue::I8(-1)], 21)],
        stmt(23, RawStatement::Return),
    );
    let (rewritten, errors) = update_statement(&decls, body);
    assert_eq!(errors, 0);
    match &rewritten.content {
        RawStatement::Switch(Switch::Match(_, arms, otherwise)) => {
            assert_eq!(arms[1].0, vec![VariantId { index: 1 }]);
            assert!(otherwise.is_none(), "both bit patterns are covered");
        }
        _ => panic!("expected a match on the enum place"),
    }
}

#[test]
fn end_to_end_two_variant_scenario() {
    // t := discriminant(x, EnumId(7)); switch t { 0 => ..., 1 => ...,
    // otherwise => ... } over an enum with exactly two variants must
    // become a two-arm match with no otherwise branch, and the rewritten
    // tree must contain no discriminant read at all.
    let mut decls = Vec::new();
    for i in 0..7 {
        decls.push(mk_opaque_decl(i));
    }
    decls.push(mk_enum_decl(7, &[0, 1]));
    let goto_l1 = stmt(30, RawStatement::Drop(place(2)));
    let goto_l2 = stmt(31, RawStatement::Drop(place(3)));
    let goto_l3 = stmt(32, RawStatement::Drop(place(4)));
    let body = occurrence(
        7,
        vec![(vec![ScalarValue::I8(0)], goto_l1), (vec![ScalarValue::I8(1)], goto_l2)],
        goto_l3,
    );
    assert!(has_read_discriminant(&body));
    let (rewritten, errors) = update_statement(&decls, body);
    assert_eq!(errors, 0);
    assert!(!has_read_discriminant(&rewritten));
    match &rewritten.content {
        RawStatement::Switch(Switch::Match(p, arms, otherwise)) => {
            assert_eq!(p.var_id.index, 0);
            assert_eq!(arms.len(), 2);
            assert_eq!(arms[0].0, vec![VariantId { index: 0 }]);
            assert_eq!(arms[1].0, vec![VariantId { index: 1 }]);
            assert!(matches!(arms[0].1.content, RawStatement::Drop(_)));
            assert!(otherwise.is_none());
        }
        _ => panic!("expected a match on the enum place"),
    }
}

#[test]
fn normalization_is_idempotent() {
    let decls = vec![mk_enum_decl(0, &[0, 1])];
    let inner = occurrence(
        0,
        vec![case(vec![ScalarValue::I8(0)], 20), case(vec![ScalarValue::I8(1)], 21)],
        stmt(23, RawStatement::Return),
    );
    // Nest the occurrence under a loop and behind another statement.
    let body = new_sequence(
        stmt(5, RawStatement::Nop),
        stmt(6, RawStatement::Loop(Box::new(inner))),
    );
    let (once, e1) = update_statement(&decls, body);
    let first = stmt_json(&once);
    let (twice, e2) = update_statement(&decls, once);
    assert_eq!(e2, 0);
    assert_eq!(first, stmt_json(&twice));
    assert!(e1 == 0);
}

#[test]
fn bad_follower_is_nopped_and_counted() {
    let decls = vec![mk_enum_decl(0, &[0, 1])];
    // The discriminant read is followed by a plain return, not a switch.
    let assign = stmt(
        10,
        RawStatement::Assign(place(1), Rvalue::Discriminant(place(0), TypeDeclId { index: 0 })),
    );
    let body = stmt(
        10,
        RawStatement::Sequence(Box::new(assign), Box::new(stmt(11, RawStatement::Return))),
    );
    let (rewritten, errors) = update_statement(&decls, body);
    assert_eq!(errors, 1);
    assert!(matches!(rewritten.content, RawStatement::Nop));
}

#[test]
fn deeper_nesting_is_the_same_local_error() {
    let decls = vec![mk_enum_decl(0, &[0])];
    let assign = stmt(
        10,
        RawStatement::Assign(place(1), Rvalue::Discriminant(place(0), TypeDeclId { index: 0 })),
    );
    // The consuming switch hides behind two levels of sequencing: this is
    // not the supported shape, and degrades to a local error.
    let switch = stmt(
        12,
        RawStatement::Switch(Switch::SwitchInt(
            Operand::Move(place(1)),
            IntegerTy::I8,
            vec![case(vec![ScalarValue::I8(0)], 13)],
            Box::new(stmt(14, RawStatement::Return)),
        )),
    );
    let nested = stmt(
        11,
        RawStatement::Sequence(
            Box::new(stmt(
                11,
                RawStatement::Sequence(Box::new(switch), Box::new(stmt(15, RawStatement::Nop))),
            )),
            Box::new(stmt(16, RawStatement::Return)),
        ),
    );
    let body = stmt(10, RawStatement::Sequence(Box::new(assign), Box::new(nested)));
    let (rewritten, errors) = update_statement(&decls, body);
    assert_eq!(errors, 1);
    assert!(matches!(rewritten.content, RawStatement::Nop));
}

#[test]
fn wrong_scrutinee_is_a_local_error() {
    let decls = vec![mk_enum_decl(0, &[0])];
    let assign = stmt(
        10,
        RawStatement::Assign(place(1), Rvalue::Discriminant(place(0), TypeDeclId { index: 0 })),
    );
    // The switch reads variable 9, not the discriminant temporary.
    let switch = stmt(
        11,
        RawStatement::Switch(Switch::SwitchInt(
            Operand::Move(place(9)),
            IntegerTy::I8,
            vec![case(vec![ScalarValue::I8(0)], 12)],
            Box::new(stmt(13, RawStatement::Return)),
        )),
    );
    let body = stmt(10, RawStatement::Sequence(Box::new(assign), Box::new(switch)));
    let (rewritten, errors) = update_statement(&decls, body);
    assert_eq!(errors, 1);
    assert!(matches!(rewritten.content, RawStatement::Nop));
}

#[test]
fn copied_scrutinee_is_a_local_error() {
    let decls = vec![mk_enum_decl(0, &[0])];
    let assign = stmt(
        10,
        RawStatement::Assign(place(1), Rvalue::Discriminant(place(0), TypeDeclId { index: 0 })),
    );
    // The switch copies the temporary instead of moving it.
    let switch = stmt(
        11,
        RawStatement::Switch(Switch::SwitchInt(
            Operand::Copy(place(1)),
            IntegerTy::I8,
            vec![case(vec![ScalarValue::I8(0)], 12)],
            Box::new(stmt(13, RawStatement::Return)),
        )),
    );
    let body = stmt(10, RawStatement::Sequence(Box::new(assign), Box::new(switch)));
    let (rewritten, errors) = update_statement(&decls, body);
    assert_eq!(errors, 1);
    assert!(matches!(rewritten.content, RawStatement::Nop));
}

#[test]
fn non_enum_scrutinee_is_a_local_error() {
    let decls = vec![mk_opaque_decl(0)];
    let body = occurrence(0, vec![case(vec![ScalarValue::I8(0)], 20)], stmt(21, RawStatement::Return));
    let (rewritten, errors) = update_statement(&decls, body);
    assert_eq!(errors, 1);
    assert!(matches!(rewritten.content, RawStatement::Nop));
}

#[test]
fn missing_declaration_is_a_local_error() {
    let decls: Vec<TypeDecl> = Vec::new();
    let body = occurrence(5, vec![case(vec![ScalarValue::I8(0)], 20)], stmt(21, RawStatement::Return));
    let (rewritten, errors) = update_statement(&decls, body);
    assert_eq!(errors, 1);
    assert!(matches!(rewritten.content, RawStatement::Nop));
}

#[test]
fn unknown_case_value_is_dropped_and_counted() {
    let decls = vec![mk_enum_decl(0, &[0, 1])];
    let body = occurrence(
        0,
        vec![
            case(vec![ScalarValue::I8(0), ScalarValue::I8(9)], 20),
            case(vec![ScalarValue::I8(1)], 21),
        ],
        stmt(23, RawStatement::Return),
    );
    let (rewritten, errors) = update_statement(&decls, body);
    assert_eq!(errors, 1);
    match &rewritten.content {
        RawStatement::Switch(Switch::Match(_, arms, otherwise)) => {
            // The unknown value 9 is dropped from the first arm.
            assert_eq!(arms[0].0, vec![VariantId { index: 0 }]);
            assert_eq!(arms[1].0, vec![VariantId { index: 1 }]);
            // The raw values 0, 9, 1 count as three covered values against
            // two distinct discriminants, so the otherwise branch stays.
            assert!(otherwise.is_some());
        }
        _ => panic!("expected a match on the enum place"),
    }
}

#[test]
fn statement_after_switch_is_reattached() {
    let decls = vec![mk_enum_decl(0, &[0])];
    let assign = stmt(
        10,
        RawStatement::Assign(place(1), Rvalue::Discriminant(place(0), TypeDeclId { index: 0 })),
    );
    let switch = stmt(
        11,
        RawStatement::Switch(Switch::SwitchInt(
            Operand::Move(place(1)),
            IntegerTy::I8,
            vec![case(vec![ScalarValue::I8(0)], 12)],
            Box::new(stmt(13, RawStatement::Nop)),
        )),
    );
    let tail = stmt(14, RawStatement::Return);
    let follower = stmt(11, RawStatement::Sequence(Box::new(switch), Box::new(tail)));
    let body = stmt(10, RawStatement::Sequence(Box::new(assign), Box::new(follower)));
    let (rewritten, errors) = update_statement(&decls, body);
    assert_eq!(errors, 0);
    match &rewritten.content {
        RawStatement::Sequence(first, second) => {
            assert!(matches!(first.content, RawStatement::Switch(Switch::Match(_, _, _))));
            assert!(matches!(second.content, RawStatement::Return));
            // The match statement's span is the hull of the two consumed
            // statements' spans.
            assert_eq!(first.meta.span.beg.line, 10);
            assert_eq!(first.meta.span.end.line, 11);
        }
        _ => panic!("expected the tail statement to be re-attached"),
    }
}

#[test]
fn error_isolation_across_occurrences() {
    // One malformed occurrence (followed by a return) and one good one in
    // the same body: only the bad one is nopped and counted, the good one
    // is rewritten normally.
    let decls = vec![mk_enum_decl(0, &[0, 1])];
    let bad_assign = stmt(
        10,
        RawStatement::Assign(place(1), Rvalue::Discriminant(place(0), TypeDeclId { index: 0 })),
    );
    let bad = stmt(
        10,
        RawStatement::Sequence(Box::new(bad_assign), Box::new(stmt(11, RawStatement::Return))),
    );
    let good = occurrence(
        0,
        vec![case(vec![ScalarValue::I8(0)], 20), case(vec![ScalarValue::I8(1)], 21)],
        stmt(23, RawStatement::Return),
    );
    let body = stmt(
        5,
        RawStatement::Switch(Switch::If(
            Operand::Move(place(4)),
            Box::new(bad),
            Box::new(good),
        )),
    );
    let (rewritten, errors) = update_statement(&decls, body);
    assert_eq!(errors, 1);
    assert!(!has_read_discriminant(&rewritten));
    match &rewritten.content {
        RawStatement::Switch(Switch::If(_, then_branch, else_branch)) => {
            assert!(matches!(then_branch.content, RawStatement::Nop));
            assert!(matches!(
                else_branch.content,
                RawStatement::Switch(Switch::Match(_, _, _))
            ));
        }
        _ => panic!("expected the surrounding if to survive"),
    }
}

#[test]
fn transform_rewrites_all_bodies_and_counts_errors() {
    let sig = FunSig {
        is_unsafe: false,
        is_closure: false,
        closure_info: None,
        generics: empty_generics(),
        preds: empty_preds(),
        parent_params_info: None,
        inputs: Vec::new(),
        output: Ty::Literal(LiteralTy::Bool),
    };
    let good = occurrence(
        0,
        vec![case(vec![ScalarValue::I8(0)], 20), case(vec![ScalarValue::I8(1)], 21)],
        stmt(23, RawStatement::Return),
    );
    let bad_assign = stmt(
        10,
        RawStatement::Assign(place(1), Rvalue::Discriminant(place(0), TypeDeclId { index: 0 })),
    );
    let bad = stmt(
        10,
        RawStatement::Sequence(Box::new(bad_assign), Box::new(stmt(11, RawStatement::Return))),
    );
    let mut funs = vec![
        FunDecl {
            def_id: charon::ids::FunDeclId { index: 0 },
            item_meta: ItemMeta { meta: mk_meta(1), attributes: Vec::new() },
            is_local: true,
            name: Name {
                name: vec![PathElem::Ident("f".to_string(), Disambiguator { index: 0 })],
            },
            signature: sig,
            body: Some(good),
        },
    ];
    let mut globals = vec![
        GlobalDecl {
            def_id: charon::ids::GlobalDeclId { index: 0 },
            item_meta: ItemMeta { meta: mk_meta(2), attributes: Vec::new() },
            is_local: true,
            name: Name {
                name: vec![PathElem::Ident("G".to_string(), Disambiguator { index: 0 })],
            },
            ty: Ty::Literal(LiteralTy::Bool),
            body: Some(bad),
        },
    ];
    let mut ctx = TransCtx {
        type_decls: vec![mk_enum_decl(0, &[0, 1])],
        trait_decls: Vec::new(),
        trait_impls: Vec::new(),
        id_to_file: vec![(FileId { index: 0 }, FileName::Local("lib.rs".to_string()))],
        ordered_decls: Some(Vec::new()),
        error_count: 0,
    };
    transform(&mut ctx, &mut funs, &mut globals);
    assert_eq!(ctx.error_count, 1);
    assert_eq!(ctx.type_decls.len(), 1);
    let fun_body = funs[0].body.as_ref().unwrap();
    assert!(!has_read_discriminant(fun_body));
    assert!(matches!(
        fun_body.content,
        RawStatement::Switch(Switch::Match(_, _, _))
    ));
    let global_body = globals[0].body.as_ref().unwrap();
    assert!(matches!(global_body.content, RawStatement::Nop));
}
