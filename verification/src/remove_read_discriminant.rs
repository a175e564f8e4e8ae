//! The discriminant-to-match normalization pass.
//!
//! Raw bodies contain the two-instruction idiom "assign the discriminant of
//! an enum-typed place into a temporary, then switch on that temporary's
//! integer value". This pass folds every occurrence of the idiom into one
//! structured match on the enum place, arm by arm, dropping the default
//! branch when the arms cover every variant. A malformed occurrence (the
//! discriminant read is not consumed by an integer switch reading the
//! temporary by value, or the switched type is not a known enum) degrades
//! to a no-op in place and increments the shared error counter: failures
//! are local, and the rest of the crate is still translated.
//!
//! After the pass, a body contains no discriminant read at all (see
//! [crate::llbc_ast::spec_has_read_discriminant]), and running the pass a
//! second time changes nothing.

use crate::ids::{TypeDeclId, VariantId};
use crate::llbc_ast::{
    FunDecl, GlobalDecl, Operand, OperandView, Place, PlaceView, RawStatement, RawStatementView,
    Rvalue, RvalueView, Statement, StatementView, Switch, SwitchView,
    spec_has_read_discriminant, spec_switch_has_read_discriminant, raw_stmt_view, stmt_view,
    switch_view,
};
use crate::meta::{combine_meta, spec_combine_meta, Meta};
use crate::translate_ctx::TransCtx;
use crate::types::{IntegerTy, TypeDecl, TypeDeclKind, Variant};
use crate::values::{spec_to_bits, ScalarValue};
use vstd::prelude::*;

verus! {

broadcast use {vstd::std_specs::vec::group_vec_axioms, vstd::seq_lib::group_seq_properties};

/// Saturated conversion of a mathematical error count to a counter value.
pub open spec fn sat64(n: nat) -> u64 {
    if n > u64::MAX {
        u64::MAX
    } else {
        n as u64
    }
}

/// Saturating addition of two counter values.
fn sat_add64(a: u64, b: u64) -> (r: u64)
    ensures
        r == sat64(a as nat + b as nat),
{
    if a > u64::MAX - b {
        u64::MAX
    } else {
        a + b
    }
}

/// Saturation composes: adding two saturated counts saturates the sum.
pub proof fn lemma_sat64_add(a: nat, b: nat)
    ensures
        sat64(sat64(a) as nat + sat64(b) as nat) == sat64(a + b),
{
}

/// The variant whose stored discriminant bit pattern is `bits`. When two
/// variants share a bit pattern, the later one wins, mirroring a map built
/// by inserting the variants in order.
pub open spec fn spec_lookup_variant(variants: Seq<Variant>, bits: u128) -> Option<VariantId>
    decreases variants.len(),
{
    if variants.len() == 0 {
        None
    } else if variants.last().discriminant == bits {
        Some(VariantId { index: (variants.len() - 1) as usize })
    } else {
        spec_lookup_variant(variants.drop_last(), bits)
    }
}

/// The set of distinct discriminant bit patterns of an enum's variants.
pub open spec fn spec_variant_discrs(variants: Seq<Variant>) -> Set<u128>
    decreases variants.len(),
{
    if variants.len() == 0 {
        Set::empty()
    } else {
        spec_variant_discrs(variants.drop_last()).insert(variants.last().discriminant)
    }
}

/// The bit patterns of one arm's case values.
pub open spec fn spec_arm_bits(values: Seq<ScalarValue>) -> Set<u128>
    decreases values.len(),
{
    if values.len() == 0 {
        Set::empty()
    } else {
        spec_arm_bits(values.drop_last()).insert(spec_to_bits(values.last()))
    }
}

/// Every raw case value covered across all arms of a switch, as a set of
/// bit patterns. Case values that match no variant count as covered too.
pub open spec fn spec_covered_bits(arms: Seq<Seq<ScalarValue>>) -> Set<u128>
    decreases arms.len(),
{
    if arms.len() == 0 {
        Set::empty()
    } else {
        spec_covered_bits(arms.drop_last()).union(spec_arm_bits(arms.last()))
    }
}

/// One arm's case values converted to variant identifiers. A value that
/// matches no variant's discriminant is dropped from the arm, and counted
/// as one error.
pub open spec fn spec_map_arm_values(variants: Seq<Variant>, values: Seq<ScalarValue>) -> (Seq<
    VariantId,
>, nat)
    decreases values.len(),
{
    if values.len() == 0 {
        (Seq::empty(), 0nat)
    } else {
        let (rest, e) = spec_map_arm_values(variants, values.drop_last());
        match spec_lookup_variant(variants, spec_to_bits(values.last())) {
            Some(id) => (rest.push(id), e),
            None => (rest, e + 1),
        }
    }
}

/// A no-op statement carrying the given metadata.
pub open spec fn spec_nop(meta: Meta) -> StatementView {
    StatementView { meta, content: RawStatementView::Nop }
}

/// Whether the statement is the shape that consumes a discriminant read:
/// an integer switch whose scrutinee moves the given variable, with no
/// projection.
pub open spec fn spec_reads_dest(op: OperandView, dest: PlaceView) -> bool {
    &&& op is Move
    &&& op->Move_0.projection.len() == 0
    &&& op->Move_0.var_id == dest.var_id
    &&& dest.projection.len() == 0
}

/// The result of normalizing one statement tree: the rewritten tree and
/// the number of local errors registered.
///
/// This is the reference description of the pass on one statement. The
/// interesting case is a sequence whose first statement assigns a
/// discriminant read: the follower must be an integer switch reading the
/// temporary by value, possibly behind one level of sequencing; the switch
/// is folded into a match on the enum place and the rewritten subtrees are
/// normalized in turn. Every failure (wrong follower shape, a scrutinee
/// that is not the temporary, a type that is not a known enum) turns the
/// whole occurrence into a no-op and counts one error.
pub open spec fn spec_visit(decls: Seq<TypeDecl>, st: StatementView) -> (StatementView, nat)
    decreases st,
{
    match st.content {
        RawStatementView::Sequence(s1, s2) => {
            match s1.content {
                RawStatementView::Assign(dest, RvalueView::Discriminant(p, adt_id)) => {
                    spec_visit_occurrence(decls, st.meta, s1.meta, dest, p, adt_id, *s2)
                },
                _ => {
                    let (r1, e1) = spec_visit(decls, *s1);
                    let (r2, e2) = spec_visit(decls, *s2);
                    (
                        StatementView {
                            meta: st.meta,
                            content: RawStatementView::Sequence(Box::new(r1), Box::new(r2)),
                        },
                        e1 + e2,
                    )
                },
            }
        },
        RawStatementView::Assign(_, rv) => {
            if rv is Discriminant {
                (spec_nop(st.meta), 1nat)
            } else {
                (st, 0nat)
            }
        },
        RawStatementView::Switch(sw) => {
            let (sw2, e) = spec_visit_switch(decls, sw);
            (StatementView { meta: st.meta, content: RawStatementView::Switch(sw2) }, e)
        },
        RawStatementView::Loop(b) => {
            let (r, e) = spec_visit(decls, *b);
            (StatementView { meta: st.meta, content: RawStatementView::Loop(Box::new(r)) }, e)
        },
        _ => (st, 0nat),
    }
}

/// Normalization of one located occurrence: a statement assigning
/// `dest := discriminant(p, adt_id)` followed by `s2`.
///
/// The follower `s2` must be an integer switch reading `dest` by value,
/// possibly behind one level of sequencing; any other shape (including
/// deeper nesting) is a local error: the occurrence becomes a no-op and
/// one error is counted. When the shape is right, the switch is folded
/// into a match on the enum place `p`: each arm's case values become
/// variant identifiers (an unmapped value is dropped and counted as an
/// error), the default branch is dropped exactly when the raw values
/// covered across all arms count as many as the enum's distinct
/// discriminants, and the statement that followed the switch, if any, is
/// re-attached behind the match by metadata-combining sequencing. If the
/// switched type is not a known enum declaration (a struct, an opaque
/// type, an error placeholder, or a missing identifier), the occurrence
/// becomes a no-op and one error is counted.
pub open spec fn spec_visit_occurrence(
    decls: Seq<TypeDecl>,
    st_meta: Meta,
    meta1: Meta,
    dest: PlaceView,
    p: PlaceView,
    adt_id: TypeDeclId,
    s2: StatementView,
) -> (StatementView, nat)
    decreases s2,
{
    match s2.content {
        RawStatementView::Sequence(s21, s3) => {
            match s21.content {
                RawStatementView::Switch(SwitchView::SwitchInt(op, _ty, targets, otherwise)) => {
                    if spec_reads_dest(op, dest) {
                        if !(adt_id.index < decls.len() && decls[adt_id.index as int].kind
                            is Enum) {
                            (spec_nop(st_meta), 1nat)
                        } else {
                            let variants = decls[adt_id.index as int].kind->Enum_0@;
                            let (arms, e_arms) = spec_visit_arms(decls, variants, targets);
                            let covered = spec_covered_bits(
                                Seq::new(targets.len(), |i: int| targets[i].0),
                            );
                            let covers_all = covered.len() == spec_variant_discrs(variants).len();
                            let (oth, e_oth): (Option<Box<StatementView>>, nat) = if covers_all {
                                (None, 0nat)
                            } else {
                                let (o, e) = spec_visit(decls, *otherwise);
                                (Some(Box::new(o)), e)
                            };
                            let match_stmt = StatementView {
                                meta: spec_combine_meta(meta1, s21.meta),
                                content: RawStatementView::Switch(SwitchView::Match(p, arms, oth)),
                            };
                            let (r3, e3) = spec_visit(decls, *s3);
                            (
                                StatementView {
                                    meta: st_meta,
                                    content: RawStatementView::Sequence(
                                        Box::new(match_stmt),
                                        Box::new(r3),
                                    ),
                                },
                                e_arms + e_oth + e3,
                            )
                        }
                    } else {
                        (spec_nop(st_meta), 1nat)
                    }
                },
                _ => (spec_nop(st_meta), 1nat),
            }
        },
        RawStatementView::Switch(SwitchView::SwitchInt(op, _ty, targets, otherwise)) => {
            if spec_reads_dest(op, dest) {
                if !(adt_id.index < decls.len() && decls[adt_id.index as int].kind is Enum) {
                    (spec_nop(st_meta), 1nat)
                } else {
                    let variants = decls[adt_id.index as int].kind->Enum_0@;
                    let (arms, e_arms) = spec_visit_arms(decls, variants, targets);
                    let covered = spec_covered_bits(
                        Seq::new(targets.len(), |i: int| targets[i].0),
                    );
                    let covers_all = covered.len() == spec_variant_discrs(variants).len();
                    let (oth, e_oth): (Option<Box<StatementView>>, nat) = if covers_all {
                        (None, 0nat)
                    } else {
                        let (o, e) = spec_visit(decls, *otherwise);
                        (Some(Box::new(o)), e)
                    };
                    (
                        StatementView {
                            meta: st_meta,
                            content: RawStatementView::Switch(SwitchView::Match(p, arms, oth)),
                        },
                        e_arms + e_oth,
                    )
                }
            } else {
                (spec_nop(st_meta), 1nat)
            }
        },
        _ => (spec_nop(st_meta), 1nat),
    }
}

/// The arms of the rewritten match: each arm keeps its order, its case
/// values become variant identifiers, and its target statement is
/// normalized in turn.
pub open spec fn spec_visit_arms(
    decls: Seq<TypeDecl>,
    variants: Seq<Variant>,
    targets: Seq<(Seq<ScalarValue>, StatementView)>,
) -> (Seq<(Seq<VariantId>, StatementView)>, nat)
    decreases targets,
{
    if targets.len() == 0 {
        (Seq::empty(), 0nat)
    } else {
        let (rest, e1) = spec_visit_arms(decls, variants, targets.drop_last());
        let (vals, e2) = spec_map_arm_values(variants, targets.last().0);
        let (tgt, e3) = spec_visit(decls, targets.last().1);
        (rest.push((vals, tgt)), e1 + e2 + e3)
    }
}

/// Normalization of the branches of a switch that is not part of a
/// discriminant-read occurrence.
pub open spec fn spec_visit_switch(decls: Seq<TypeDecl>, sw: SwitchView) -> (SwitchView, nat)
    decreases sw,
{
    match sw {
        SwitchView::If(op, s1, s2) => {
            let (r1, e1) = spec_visit(decls, *s1);
            let (r2, e2) = spec_visit(decls, *s2);
            (SwitchView::If(op, Box::new(r1), Box::new(r2)), e1 + e2)
        },
        SwitchView::SwitchInt(op, ty, targets, otherwise) => {
            let (arms, e1) = spec_visit_int_arms(decls, targets);
            let (oth, e2) = spec_visit(decls, *otherwise);
            (SwitchView::SwitchInt(op, ty, arms, Box::new(oth)), e1 + e2)
        },
        SwitchView::Match(p, targets, otherwise) => {
            let (arms, e1) = spec_visit_match_arms(decls, targets);
            match otherwise {
                Some(o) => {
                    let (r, e2) = spec_visit(decls, *o);
                    (SwitchView::Match(p, arms, Some(Box::new(r))), e1 + e2)
                },
                None => (SwitchView::Match(p, arms, None), e1),
            }
        },
    }
}

/// Normalization of the branches of an integer switch.
pub open spec fn spec_visit_int_arms(
    decls: Seq<TypeDecl>,
    targets: Seq<(Seq<ScalarValue>, StatementView)>,
) -> (Seq<(Seq<ScalarValue>, StatementView)>, nat)
    decreases targets,
{
    if targets.len() == 0 {
        (Seq::empty(), 0nat)
    } else {
        let (rest, e1) = spec_visit_int_arms(decls, targets.drop_last());
        let (tgt, e2) = spec_visit(decls, targets.last().1);
        (rest.push((targets.last().0, tgt)), e1 + e2)
    }
}

/// Normalization of the branches of a match.
pub open spec fn spec_visit_match_arms(
    decls: Seq<TypeDecl>,
    targets: Seq<(Seq<VariantId>, StatementView)>,
) -> (Seq<(Seq<VariantId>, StatementView)>, nat)
    decreases targets,
{
    if targets.len() == 0 {
        (Seq::empty(), 0nat)
    } else {
        let (rest, e1) = spec_visit_match_arms(decls, targets.drop_last());
        let (tgt, e2) = spec_visit(decls, targets.last().1);
        (rest.push((targets.last().0, tgt)), e1 + e2)
    }
}


/// Whether a vector of bit patterns contains the given one.
fn vec_contains_u128(v: &Vec<u128>, x: u128) -> (r: bool)
    ensures
        r == v@.contains(x),
{
    let mut i: usize = 0;
    while i < v.len()
        invariant
            i <= v@.len(),
            forall|k: int| 0 <= k < i ==> v@[k] != x,
        decreases v@.len() - i,
    {
        if v[i] == x {
            return true;
        }
        i += 1;
    }
    false
}

/// Pushing a fresh element onto a duplicate-free sequence keeps it
/// duplicate-free.
proof fn lemma_no_dup_push(s: Seq<u128>, x: u128)
    requires
        s.no_duplicates(),
        !s.contains(x),
    ensures
        s.push(x).no_duplicates(),
{
    let s2 = s.push(x);
    assert forall|i: int, j: int|
        (0 <= i < s2.len() && 0 <= j < s2.len() && i != j) implies s2[i] != s2[j] by {
        if i < s.len() && j < s.len() {
            assert(s[i] == s2[i] && s[j] == s2[j]);
        } else if j == s.len() && i < s.len() {
            assert(s.contains(s[i]));
        } else if i == s.len() && j < s.len() {
            assert(s.contains(s[j]));
        }
    }
}

/// The variant whose stored discriminant is `bits`, scanning from the end
/// so that the last of two variants sharing a pattern wins.
pub fn lookup_variant(variants: &Vec<Variant>, bits: u128) -> (r: Option<VariantId>)
    ensures
        r == spec_lookup_variant(variants@, bits),
{
    let ghost full = variants@;
    let mut i: usize = variants.len();
    proof {
        assert(full.take(variants@.len() as int) =~= full);
    }
    while i > 0
        invariant
            i <= variants@.len(),
            full == variants@,
            spec_lookup_variant(full, bits) == spec_lookup_variant(full.take(i as int), bits),
        decreases i,
    {
        i -= 1;
        proof {
            assert(full.take(i + 1 as int).last() == full[i as int]);
            assert(full.take(i + 1 as int).drop_last() =~= full.take(i as int));
        }
        if variants[i].discriminant == bits {
            return Some(VariantId { index: i });
        }
    }
    proof {
        assert(full.take(0) =~= Seq::<Variant>::empty());
    }
    None
}

/// Convert one arm's case values to variant identifiers, dropping and
/// counting the values that match no variant.
pub fn map_arm_values(variants: &Vec<Variant>, values: &Vec<ScalarValue>) -> (r: (Vec<
    VariantId,
>, u64))
    ensures
        r.0@ == spec_map_arm_values(variants@, values@).0,
        r.1 == sat64(spec_map_arm_values(variants@, values@).1),
{
    let mut out: Vec<VariantId> = Vec::new();
    let mut errors: u64 = 0;
    let mut j: usize = 0;
    while j < values.len()
        invariant
            j <= values@.len(),
            out@ == spec_map_arm_values(variants@, values@.take(j as int)).0,
            errors == sat64(spec_map_arm_values(variants@, values@.take(j as int)).1),
        decreases values@.len() - j,
    {
        proof {
            assert(values@.take(j + 1 as int).last() == values@[j as int]);
            assert(values@.take(j + 1 as int).drop_last() =~= values@.take(j as int));
        }
        let bits = values[j].to_bits();
        match lookup_variant(variants, bits) {
            Some(id) => {
                out.push(id);
            },
            None => {
                proof {
                    lemma_sat64_add(spec_map_arm_values(variants@, values@.take(j as int)).1, 1nat);
                }
                errors = sat_add64(errors, 1);
            },
        }
        j += 1;
    }
    proof {
        assert(values@.take(values@.len() as int) =~= values@);
    }
    (out, errors)
}

/// The number of distinct discriminant bit patterns among an enum's
/// variants.
pub fn count_distinct_discrs(variants: &Vec<Variant>) -> (r: usize)
    ensures
        r == spec_variant_discrs(variants@).len(),
{
    let mut seen: Vec<u128> = Vec::new();
    let mut i: usize = 0;
    while i < variants.len()
        invariant
            i <= variants@.len(),
            seen@.no_duplicates(),
            seen@.to_set() == spec_variant_discrs(variants@.take(i as int)),
            seen@.len() <= i,
        decreases variants@.len() - i,
    {
        proof {
            assert(variants@.take(i + 1 as int).last() == variants@[i as int]);
            assert(variants@.take(i + 1 as int).drop_last() =~= variants@.take(i as int));
        }
        let d = variants[i].discriminant;
        if !vec_contains_u128(&seen, d) {
            proof {
                lemma_no_dup_push(seen@, d);
            }
            seen.push(d);
            proof {
                assert(seen@.to_set() =~= spec_variant_discrs(variants@.take(i + 1 as int)));
            }
        } else {
            proof {
                assert(seen@.to_set().contains(d));
                assert(seen@.to_set() =~= spec_variant_discrs(variants@.take(i + 1 as int)));
            }
        }
        i += 1;
    }
    proof {
        assert(variants@.take(variants@.len() as int) =~= variants@);
        seen@.unique_seq_to_set();
    }
    seen.len()
}

/// The number of distinct raw bit patterns covered across all arms of an
/// integer switch.
#[verifier::loop_isolation(false)]
fn count_covered_bits(targets: &Vec<(Vec<ScalarValue>, Statement)>) -> (r: usize)
    ensures
        r == spec_covered_bits(Seq::new(targets@.len(), |i: int| targets@[i].0@)).len(),
{
    let ghost armvals = Seq::new(targets@.len(), |i: int| targets@[i].0@);
    let mut seen: Vec<u128> = Vec::new();
    let mut i: usize = 0;
    while i < targets.len()
        invariant
            i <= targets@.len(),
            armvals == Seq::new(targets@.len(), |k: int| targets@[k].0@),
            seen@.no_duplicates(),
            seen@.to_set() == spec_covered_bits(armvals.take(i as int)),
        decreases targets@.len() - i,
    {
        let ghost values = targets@[i as int].0@;
        let ghost base = spec_covered_bits(armvals.take(i as int));
        let mut j: usize = 0;
        proof {
            assert(base.union(spec_arm_bits(values.take(0))) =~= base);
        }
        while j < targets[i].0.len()
            invariant
                i < targets@.len(),
                j <= values.len(),
                values == targets@[i as int].0@,
                base == spec_covered_bits(armvals.take(i as int)),
                armvals == Seq::new(targets@.len(), |k: int| targets@[k].0@),
                seen@.no_duplicates(),
                seen@.to_set() == base.union(spec_arm_bits(values.take(j as int))),
            decreases values.len() - j,
        {
            proof {
                assert(values.take(j + 1 as int).last() == values[j as int]);
                assert(values.take(j + 1 as int).drop_last() =~= values.take(j as int));
            }
            let b = targets[i].0[j].to_bits();
            proof {
                assert(spec_arm_bits(values.take(j + 1 as int)) == spec_arm_bits(
                    values.take(j as int),
                ).insert(b));
            }
            if !vec_contains_u128(&seen, b) {
                let ghost seen_old = seen@;
                proof {
                    lemma_no_dup_push(seen@, b);
                }
                seen.push(b);
                proof {
                    assert(seen@ == seen_old.push(b));
                    assert(seen_old.push(b).to_set() =~= seen_old.to_set().insert(b));
                    assert(seen@.to_set() =~= base.union(spec_arm_bits(values.take(j + 1 as int))));
                }
            } else {
                proof {
                    assert(seen@.to_set().contains(b));
                    assert(seen@.to_set() =~= base.union(spec_arm_bits(values.take(j + 1 as int))));
                }
            }
            j += 1;
        }
        proof {
            assert(values.take(values.len() as int) =~= values);
            assert(armvals.take(i + 1 as int).last() == values);
            assert(armvals.take(i + 1 as int).drop_last() =~= armvals.take(i as int));
            assert(seen@.to_set() =~= spec_covered_bits(armvals.take(i + 1 as int)));
        }
        i += 1;
    }
    proof {
        assert(armvals.take(targets@.len() as int) =~= armvals);
        seen@.unique_seq_to_set();
    }
    seen.len()
}


/// Normalize one statement tree: rewrite every discriminant-read
/// occurrence in it into a structured match, and return the rewritten tree
/// together with the number of local errors registered (saturating at the
/// counter's maximum).
pub fn update_statement(decls: &Vec<TypeDecl>, st: Statement) -> (r: (Statement, u64))
    ensures
        r.0@ == spec_visit(decls@, st@).0,
        r.1 == sat64(spec_visit(decls@, st@).1),
    decreases st,
{
    let ghost st0 = st;
    let meta = st.meta;
    match st.content {
        RawStatement::Sequence(s1box, s2box) => {
            let s1 = *s1box;
            let s2 = *s2box;
            let ghost s1v = s1;
            let ghost s2v = s2;
            match s1.content {
                RawStatement::Assign(dest, Rvalue::Discriminant(p, adt_id)) => {
                    let ghost destv = dest;
                    let ghost pv = p;
                    proof {
                        reveal_with_fuel(stmt_view, 3);
                        reveal_with_fuel(raw_stmt_view, 3);
                        assert(st0@.content == RawStatementView::Sequence(
                            Box::new(s1v@),
                            Box::new(s2v@),
                        ));
                        assert(s1v@.content == RawStatementView::Assign(
                            destv@,
                            RvalueView::Discriminant(pv@, adt_id),
                        ));
                    }
                    update_occurrence(decls, meta, s1.meta, dest, p, adt_id, s2)
                },
                s1_content => {
                    let s1r = Statement { meta: s1.meta, content: s1_content };
                    proof {
                        reveal_with_fuel(stmt_view, 3);
                        reveal_with_fuel(raw_stmt_view, 3);
                        assert(s1r == s1v);
                        assert(decreases_to!(st0 => s1v));
                        assert(decreases_to!(st0 => s2v));
                        assert(st0@.content == RawStatementView::Sequence(
                            Box::new(s1v@),
                            Box::new(s2v@),
                        ));
                        assert(!(s1v@.content matches RawStatementView::Assign(_, rv) && rv
                            is Discriminant));
                    }
                    let (r1, e1) = update_statement(decls, s1r);
                    let (r2, e2) = update_statement(decls, s2);
                    proof {
                        lemma_sat64_add(spec_visit(decls@, s1v@).1, spec_visit(decls@, s2v@).1);
                    }
                    let e = sat_add64(e1, e2);
                    let ghost r1v = r1;
                    let ghost r2v = r2;
                    let res = Statement {
                        meta,
                        content: RawStatement::Sequence(Box::new(r1), Box::new(r2)),
                    };
                    proof {
                        assert(res@.content == RawStatementView::Sequence(
                            Box::new(r1v@),
                            Box::new(r2v@),
                        ));
                        assert(res@ =~~= spec_visit(decls@, st0@).0);
                    }
                    (res, e)
                },
            }
        },
        RawStatement::Assign(dest, rv) => {
            let ghost destv = dest;
            let ghost rvv = rv;
            proof {
                assert(st0@.content == RawStatementView::Assign(destv@, rvv@));
            }
            match rv {
                Rvalue::Discriminant(_, _) => (Statement { meta, content: RawStatement::Nop }, 1),
                rv_other => {
                    let r = Statement { meta, content: RawStatement::Assign(dest, rv_other) };
                    proof {
                        assert(r == st0);
                        assert(!(rvv@ is Discriminant));
                    }
                    (r, 0)
                },
            }
        },
        RawStatement::Switch(sw) => {
            let ghost sw0 = sw;
            proof {
                assert(decreases_to!(st0 => sw0));
                assert(st0@.content == RawStatementView::Switch(sw0@));
            }
            let (sw2, e) = update_switch(decls, sw);
            let ghost sw2v = sw2;
            let res = Statement { meta, content: RawStatement::Switch(sw2) };
            proof {
                assert(res@.content == RawStatementView::Switch(sw2v@));
                assert(res@ =~~= spec_visit(decls@, st0@).0);
            }
            (res, e)
        },
        RawStatement::Loop(b) => {
            let body = *b;
            let ghost bodyv = body;
            proof {
                assert(decreases_to!(st0 => bodyv));
                assert(st0@.content == RawStatementView::Loop(Box::new(bodyv@)));
            }
            let (r, e) = update_statement(decls, body);
            let ghost rv2 = r;
            let res = Statement { meta, content: RawStatement::Loop(Box::new(r)) };
            proof {
                assert(res@.content == RawStatementView::Loop(Box::new(rv2@)));
                assert(res@ =~~= spec_visit(decls@, st0@).0);
            }
            (res, e)
        },
        RawStatement::Drop(pl) => {
            let r = Statement { meta, content: RawStatement::Drop(pl) };
            proof {
                assert(r == st0);
            }
            (r, 0)
        },
        RawStatement::Nop => (Statement { meta, content: RawStatement::Nop }, 0),
        RawStatement::Return => (Statement { meta, content: RawStatement::Return }, 0),
    }
}

/// Normalize one located occurrence: a statement assigning
/// `dest := discriminant(p, adt_id)`, carrying `meta1`, followed by `s2`,
/// the whole sequence carrying `st_meta`.
#[verifier::loop_isolation(false)]
#[verifier::rlimit(60)]
fn update_occurrence(
    decls: &Vec<TypeDecl>,
    st_meta: Meta,
    meta1: Meta,
    dest: Place,
    p: Place,
    adt_id: TypeDeclId,
    s2: Statement,
) -> (r: (Statement, u64))
    ensures
        r.0@ == spec_visit_occurrence(decls@, st_meta, meta1, dest@, p@, adt_id, s2@).0,
        r.1 == sat64(spec_visit_occurrence(decls@, st_meta, meta1, dest@, p@, adt_id, s2@).1),
    decreases s2,
{
    let ghost s2v = s2;
    let ghost pv = p;
    let ghost destv = dest;
    // Locate the consuming integer switch: directly, or behind one level
    // of sequencing. Any other follower shape is a local error.
    let (meta2, op, targets, otherwise, s3opt): (
        Meta,
        Operand,
        Vec<(Vec<ScalarValue>, Statement)>,
        Box<Statement>,
        Option<Statement>,
    ) = match s2.content {
        RawStatement::Sequence(s21box, s3box) => {
            let s21 = *s21box;
            let ghost s21v = s21;
            let ghost s3v = *s3box;
            match s21.content {
                RawStatement::Switch(Switch::SwitchInt(op, _ty, targets, oth)) => {
                    proof {
                        reveal_with_fuel(stmt_view, 3);
                        reveal_with_fuel(raw_stmt_view, 3);
                        reveal_with_fuel(switch_view, 3);
                        assert(decreases_to!(s2v => s21v));
                        assert(decreases_to!(s21v => targets));
                        assert(decreases_to!(s21v => *oth));
                        assert(decreases_to!(s2v => *s3box));
                        assert(s2v@.content == RawStatementView::Sequence(
                            Box::new(s21v@),
                            Box::new(s3v@),
                        ));
                        assert(s21v@.content is Switch);
                        assert(s21v@.content->Switch_0 is SwitchInt);
                    }
                    (s21.meta, op, targets, oth, Some(*s3box))
                },
                _ => {
                    proof {
                        reveal_with_fuel(stmt_view, 3);
                        reveal_with_fuel(raw_stmt_view, 3);
                        reveal_with_fuel(switch_view, 3);
                        assert(s2v@.content == RawStatementView::Sequence(
                            Box::new(s21v@),
                            Box::new(s3v@),
                        ));
                        assert(spec_visit_occurrence(
                            decls@,
                            st_meta,
                            meta1,
                            destv@,
                            pv@,
                            adt_id,
                            s2v@,
                        ) == (spec_nop(st_meta), 1nat));
                    }
                    return (Statement { meta: st_meta, content: RawStatement::Nop }, 1);
                },
            }
        },
        RawStatement::Switch(Switch::SwitchInt(op, _ty, targets, oth)) => {
            proof {
                assert(decreases_to!(s2v => targets));
                assert(decreases_to!(s2v => *oth));
                assert(s2v@.content is Switch);
                assert(s2v@.content->Switch_0 is SwitchInt);
            }
            (s2.meta, op, targets, oth, None)
        },
        _ => {
            proof {
                assert(spec_visit_occurrence(decls@, st_meta, meta1, destv@, pv@, adt_id, s2v@)
                    == (spec_nop(st_meta), 1nat));
            }
            return (Statement { meta: st_meta, content: RawStatement::Nop }, 1);
        },
    };
    let ghost targets0 = targets;
    let ghost othv = *otherwise;
    let ghost armviews = Seq::new(
        targets0@.len(),
        |i: int| (targets0@[i].0@, stmt_view(targets0@[i].1)),
    );
    // The switch statement's view, and how the pieces in hand relate to it.
    let ghost swspec: SwitchView = if s3opt is Some {
        (*(s2v@.content->Sequence_0)).content->Switch_0
    } else {
        s2v@.content->Switch_0
    };
    proof {
        assert(swspec is SwitchInt);
        assert(swspec->SwitchInt_0 == op@);
        assert(swspec->SwitchInt_2 =~= armviews);
        assert(swspec->SwitchInt_3 == Box::new(othv@));
    }
    let ghost specr = spec_visit_occurrence(decls@, st_meta, meta1, destv@, pv@, adt_id, s2v@);

    // The switch must read the discriminant temporary by value.
    let reads_dest = match &op {
        Operand::Move(op_p) => op_p.projection.len() == 0 && op_p.var_id.index
            == dest.var_id.index && dest.projection.len() == 0,
        _ => false,
    };
    proof {
        assert(reads_dest == spec_reads_dest(op@, dest@));
    }
    if !reads_dest {
        proof {
            assert(specr == (spec_nop(st_meta), 1nat));
        }
        return (Statement { meta: st_meta, content: RawStatement::Nop }, 1);
    }

    // Resolve the enum declaration named by the discriminant read. A
    // struct, an opaque type, an error placeholder or a missing
    // identifier cannot drive the rewrite: local error.
    if !(adt_id.index < decls.len()) {
        proof {
            assert(specr == (spec_nop(st_meta), 1nat));
        }
        return (Statement { meta: st_meta, content: RawStatement::Nop }, 1);
    }
    let variants = match &decls[adt_id.index].kind {
        TypeDeclKind::Enum(variants) => variants,
        _ => {
            proof {
                assert(!(decls@[adt_id.index as int].kind is Enum));
                assert(specr == (spec_nop(st_meta), 1nat));
            }
            return (Statement { meta: st_meta, content: RawStatement::Nop }, 1);
        },
    };
    proof {
        assert(variants@ == decls@[adt_id.index as int].kind->Enum_0@);
    }

    // Decide whether the arms cover every variant: the default branch is
    // dropped exactly when the distinct raw values covered count as many
    // as the enum's distinct discriminants.
    let n_covered = count_covered_bits(&targets);
    let n_discrs = count_distinct_discrs(variants);
    let covers_all = n_covered == n_discrs;
    let ghost spec_covered = spec_covered_bits(Seq::new(armviews.len(), |i: int| armviews[i].0));
    proof {
        assert(Seq::new(targets0@.len(), |i: int| targets0@[i].0@) =~= Seq::new(
            armviews.len(),
            |i: int| armviews[i].0,
        ));
        assert(Seq::new(swspec->SwitchInt_2.len(), |i: int| swspec->SwitchInt_2[i].0) =~= Seq::new(
            armviews.len(),
            |i: int| armviews[i].0,
        ));
        assert(covers_all == (spec_covered.len() == spec_variant_discrs(variants@).len()));
    }

    // Convert the arms: case values become variant identifiers, and each
    // arm's target is normalized in turn.
    let mut rem = targets;
    let mut out: Vec<(Vec<VariantId>, Statement)> = Vec::new();
    let mut errors: u64 = 0;
    let ghost mut k: int = 0;
    while rem.len() > 0
        invariant
            0 <= k <= targets0@.len(),
            k == out@.len(),
            rem@ == targets0@.subrange(k, targets0@.len() as int),
            Seq::new(out@.len(), |i: int| (out@[i].0@, stmt_view(out@[i].1)))
                == spec_visit_arms(decls@, variants@, armviews.take(k)).0,
            errors == sat64(spec_visit_arms(decls@, variants@, armviews.take(k)).1),
        decreases rem@.len(),
    {
        let arm = rem.remove(0);
        proof {
            assert(arm == targets0@[k]);
        }
        let (values, tgt) = arm;
        let ghost tgtv = tgt;
        let (ids, e_vals) = map_arm_values(variants, &values);
        proof {
            assert(decreases_to!(targets0 => targets0@));
            assert(decreases_to!(targets0@ => targets0@[k]));
            assert(decreases_to!(targets0@[k] => targets0@[k].1));
            assert(decreases_to!(s2v => targets0@[k].1));
            assert(tgtv == targets0@[k].1);
            assert(decreases_to!(s2v => tgtv));
        }
        let (tgt2, e_tgt) = update_statement(decls, tgt);
        proof {
            let prev = spec_visit_arms(decls@, variants@, armviews.take(k));
            let evals = spec_map_arm_values(variants@, targets0@[k].0@).1;
            let etgt = spec_visit(decls@, stmt_view(targets0@[k].1)).1;
            lemma_sat64_add(evals, etgt);
            lemma_sat64_add(prev.1, evals + etgt);
            assert(armviews.take(k + 1).drop_last() =~= armviews.take(k));
            assert(armviews.take(k + 1).last() == armviews[k]);
        }
        let e_arm = sat_add64(e_vals, e_tgt);
        errors = sat_add64(errors, e_arm);
        out.push((ids, tgt2));
        proof {
            k = k + 1;
            assert(rem@ =~= targets0@.subrange(k, targets0@.len() as int));
            assert(Seq::new(out@.len(), |i: int| (out@[i].0@, stmt_view(out@[i].1)))
                =~= spec_visit_arms(decls@, variants@, armviews.take(k)).0);
        }
    }
    proof {
        assert(armviews.take(targets0@.len() as int) =~= armviews);
    }

    // Keep or drop the default branch.
    let (oth2, e_oth): (Option<Box<Statement>>, u64) = if covers_all {
        (None, 0)
    } else {
        proof {
            assert(decreases_to!(s2v => othv));
        }
        let (o, e) = update_statement(decls, *otherwise);
        (Some(Box::new(o)), e)
    };
    let ghost oth2v = oth2;
    proof {
        lemma_sat64_add(
            spec_visit_arms(decls@, variants@, armviews).1,
            if covers_all {
                0nat
            } else {
                spec_visit(decls@, othv@).1
            },
        );
    }
    let errors = sat_add64(errors, e_oth);

    // Re-emit the match on the original enum place, and re-attach the
    // statement that followed the switch, if any.
    let ghost outv = out@;
    let match_content = RawStatement::Switch(Switch::Match(p, out, oth2));
    let ghost match_contentv = match_content;
    proof {
        assert(match_contentv@ is Switch);
        assert(match_contentv@->Switch_0 is Match);
        assert(match_contentv@->Switch_0->Match_0 == pv@);
        assert(match_contentv@->Switch_0->Match_1 =~= Seq::new(
            outv.len(),
            |i: int| (outv[i].0@, stmt_view(outv[i].1)),
        ));
        assert(match match_contentv@->Switch_0->Match_2 {
            Some(b) => oth2v is Some && *b == (*oth2v->0)@,
            None => oth2v is None,
        });
    }
    match s3opt {
        Some(s3) => {
            let ghost s3v = s3;
            let match_stmt = Statement { meta: combine_meta(&meta1, &meta2), content: match_content };
            let ghost match_stmtv = match_stmt;
            let (r3, e3) = update_statement(decls, s3);
            proof {
                lemma_sat64_add(
                    spec_visit_arms(decls@, variants@, armviews).1 + (if covers_all {
                        0nat
                    } else {
                        spec_visit(decls@, othv@).1
                    }),
                    spec_visit(decls@, s3v@).1,
                );
            }
            let errors = sat_add64(errors, e3);
            let ghost r3v = r3;
            let res = Statement {
                meta: st_meta,
                content: RawStatement::Sequence(Box::new(match_stmt), Box::new(r3)),
            };
            proof {
                assert(res@.content == RawStatementView::Sequence(
                    Box::new(match_stmtv@),
                    Box::new(r3v@),
                ));
                assert(res@ =~~= specr.0);
            }
            (res, errors)
        },
        None => {
            let res = Statement { meta: st_meta, content: match_content };
            proof {
                assert(res@.content == match_contentv@);
                assert(res@ =~~= specr.0);
            }
            (res, errors)
        },
    }
}

/// Normalize the branches of a switch that is not part of a
/// discriminant-read occurrence.
#[verifier::loop_isolation(false)]
fn update_switch(decls: &Vec<TypeDecl>, sw: Switch) -> (r: (Switch, u64))
    ensures
        r.0@ == spec_visit_switch(decls@, sw@).0,
        r.1 == sat64(spec_visit_switch(decls@, sw@).1),
    decreases sw,
{
    let ghost sw0 = sw;
    match sw {
        Switch::If(op, s1box, s2box) => {
            let s1 = *s1box;
            let s2 = *s2box;
            let ghost s1v = s1;
            let ghost s2v = s2;
            proof {
                assert(decreases_to!(sw0 => s1v));
                assert(decreases_to!(sw0 => s2v));
            }
            let (r1, e1) = update_statement(decls, s1);
            let (r2, e2) = update_statement(decls, s2);
            proof {
                lemma_sat64_add(spec_visit(decls@, s1v@).1, spec_visit(decls@, s2v@).1);
            }
            let e = sat_add64(e1, e2);
            (Switch::If(op, Box::new(r1), Box::new(r2)), e)
        },
        Switch::SwitchInt(op, ty, targets, othbox) => {
            let ghost op0 = op;
            let ghost targets0 = targets;
            let ghost othv = *othbox;
            let ghost garms = Seq::new(
                targets0@.len(),
                |i: int|
                    if 0 <= i < targets0@.len() {
                        (targets0@[i].0@, stmt_view(targets0@[i].1))
                    } else {
                        arbitrary()
                    },
            );
            proof {
                assert(sw0@ is SwitchInt);
                assert(sw0@->SwitchInt_2 =~= garms);
                assert(sw0@ == SwitchView::SwitchInt(op0@, ty, sw0@->SwitchInt_2, Box::new(othv@)));
                assert(spec_visit_switch(decls@, sw0@).0 == SwitchView::SwitchInt(
                    op0@,
                    ty,
                    spec_visit_int_arms(decls@, garms).0,
                    Box::new(spec_visit(decls@, othv@).0),
                ));
                assert(spec_visit_switch(decls@, sw0@).1 == spec_visit_int_arms(decls@, garms).1
                    + spec_visit(decls@, othv@).1);
            }
            let ghost armviews = Seq::new(
                targets0@.len(),
                |i: int| (targets0@[i].0@, stmt_view(targets0@[i].1)),
            );
            proof {
                assert(decreases_to!(sw0 => targets0));
                assert(decreases_to!(sw0 => othv));
            }
            let mut rem = targets;
            let mut out: Vec<(Vec<ScalarValue>, Statement)> = Vec::new();
            let mut errors: u64 = 0;
            let ghost mut k: int = 0;
            while rem.len() > 0
                invariant
                    0 <= k <= targets0@.len(),
                    k == out@.len(),
                    rem@ == targets0@.subrange(k, targets0@.len() as int),
                    armviews == Seq::new(
                        targets0@.len(),
                        |i: int| (targets0@[i].0@, stmt_view(targets0@[i].1)),
                    ),
                    Seq::new(out@.len(), |i: int| (out@[i].0@, stmt_view(out@[i].1)))
                        == spec_visit_int_arms(decls@, armviews.take(k)).0,
                    errors == sat64(spec_visit_int_arms(decls@, armviews.take(k)).1),
                    decreases_to!(sw0 => targets0),
                decreases rem@.len(),
            {
                let arm = rem.remove(0);
                proof {
                    assert(arm == targets0@[k]);
                }
                let (values, tgt) = arm;
                let ghost tgtv = tgt;
                proof {
                    assert(decreases_to!(targets0 => targets0@));
                    assert(decreases_to!(targets0@ => targets0@[k]));
                    assert(decreases_to!(targets0@[k] => targets0@[k].1));
                    assert(decreases_to!(sw0 => targets0@[k].1));
                    assert(tgtv == targets0@[k].1);
                    assert(decreases_to!(sw0 => tgtv));
                }
                let (tgt2, e_tgt) = update_statement(decls, tgt);
                proof {
                    let prev = spec_visit_int_arms(decls@, armviews.take(k));
                    let etgt = spec_visit(decls@, stmt_view(targets0@[k].1)).1;
                    lemma_sat64_add(prev.1, etgt);
                    assert(armviews.take(k + 1).drop_last() =~= armviews.take(k));
                    assert(armviews.take(k + 1).last() == armviews[k]);
                }
                errors = sat_add64(errors, e_tgt);
                out.push((values, tgt2));
                proof {
                    k = k + 1;
                    assert(rem@ =~= targets0@.subrange(k, targets0@.len() as int));
                    assert(Seq::new(out@.len(), |i: int| (out@[i].0@, stmt_view(out@[i].1)))
                        =~= spec_visit_int_arms(decls@, armviews.take(k)).0);
                }
            }
            proof {
                assert(armviews.take(targets0@.len() as int) =~= armviews);
                assert(Seq::new(
                    targets0@.len(),
                    |i: int|
                        if 0 <= i < targets0@.len() {
                            (targets0@[i].0@, stmt_view(targets0@[i].1))
                        } else {
                            arbitrary()
                        },
                ) =~= armviews);
            }
            let (o, e_oth) = update_statement(decls, *othbox);
            proof {
                lemma_sat64_add(spec_visit_int_arms(decls@, armviews).1, spec_visit(decls@, othv@).1);
            }
            let errors = sat_add64(errors, e_oth);
            let ghost outv = out@;
            let ghost ov = o;
            let res = Switch::SwitchInt(op, ty, out, Box::new(o));
            proof {
                assert(res@ is SwitchInt);
                assert(res@->SwitchInt_2 =~= Seq::new(
                    outv.len(),
                    |i: int| (outv[i].0@, stmt_view(outv[i].1)),
                ));
                assert(res@->SwitchInt_3 == Box::new(ov@));
                assert(res@ =~= spec_visit_switch(decls@, sw0@).0);
            }
            (res, errors)
        },
        Switch::Match(pl, targets, oth) => {
            let ghost pl0 = pl;
            let ghost oth0 = oth;
            let ghost targets0 = targets;
            let ghost armviews = Seq::new(
                targets0@.len(),
                |i: int| (targets0@[i].0@, stmt_view(targets0@[i].1)),
            );
            proof {
                assert(decreases_to!(sw0 => targets0));
                assert(sw0@ is Match);
                assert(sw0@->Match_1 =~= armviews);
                assert(sw0@->Match_0 == pl0@);
            }
            let mut rem = targets;
            let mut out: Vec<(Vec<VariantId>, Statement)> = Vec::new();
            let mut errors: u64 = 0;
            let ghost mut k: int = 0;
            while rem.len() > 0
                invariant
                    0 <= k <= targets0@.len(),
                    k == out@.len(),
                    rem@ == targets0@.subrange(k, targets0@.len() as int),
                    armviews == Seq::new(
                        targets0@.len(),
                        |i: int| (targets0@[i].0@, stmt_view(targets0@[i].1)),
                    ),
                    Seq::new(out@.len(), |i: int| (out@[i].0@, stmt_view(out@[i].1)))
                        == spec_visit_match_arms(decls@, armviews.take(k)).0,
                    errors == sat64(spec_visit_match_arms(decls@, armviews.take(k)).1),
                    decreases_to!(sw0 => targets0),
                decreases rem@.len(),
            {
                let arm = rem.remove(0);
                proof {
                    assert(arm == targets0@[k]);
                }
                let (values, tgt) = arm;
                let ghost tgtv = tgt;
                proof {
                    assert(decreases_to!(targets0 => targets0@));
                    assert(decreases_to!(targets0@ => targets0@[k]));
                    assert(decreases_to!(targets0@[k] => targets0@[k].1));
                    assert(decreases_to!(sw0 => targets0@[k].1));
                    assert(tgtv == targets0@[k].1);
                    assert(decreases_to!(sw0 => tgtv));
                }
                let (tgt2, e_tgt) = update_statement(decls, tgt);
                proof {
                    let prev = spec_visit_match_arms(decls@, armviews.take(k));
                    let etgt = spec_visit(decls@, stmt_view(targets0@[k].1)).1;
                    lemma_sat64_add(prev.1, etgt);
                    assert(armviews.take(k + 1).drop_last() =~= armviews.take(k));
                    assert(armviews.take(k + 1).last() == armviews[k]);
                }
                errors = sat_add64(errors, e_tgt);
                out.push((values, tgt2));
                proof {
                    k = k + 1;
                    assert(rem@ =~= targets0@.subrange(k, targets0@.len() as int));
                    assert(Seq::new(out@.len(), |i: int| (out@[i].0@, stmt_view(out@[i].1)))
                        =~= spec_visit_match_arms(decls@, armviews.take(k)).0);
                }
            }
            proof {
                assert(armviews.take(targets0@.len() as int) =~= armviews);
                assert(Seq::new(
                    targets0@.len(),
                    |i: int|
                        if 0 <= i < targets0@.len() {
                            (targets0@[i].0@, stmt_view(targets0@[i].1))
                        } else {
                            arbitrary()
                        },
                ) =~= armviews);
                assert(Seq::new(
                    out@.len(),
                    |i: int|
                        if 0 <= i < out@.len() {
                            (out@[i].0@, stmt_view(out@[i].1))
                        } else {
                            arbitrary()
                        },
                ) =~= Seq::new(out@.len(), |i: int| (out@[i].0@, stmt_view(out@[i].1))));
            }
            match oth {
                Some(obox) => {
                    let ghost othv = *obox;
                    proof {
                        assert(decreases_to!(sw0 => othv));
                    }
                    let (o, e_oth) = update_statement(decls, *obox);
                    proof {
                        lemma_sat64_add(
                            spec_visit_match_arms(decls@, armviews).1,
                            spec_visit(decls@, othv@).1,
                        );
                    }
                    let errors = sat_add64(errors, e_oth);
                    let ghost outv = out@;
                    let ghost ov = o;
                    let res = Switch::Match(pl, out, Some(Box::new(o)));
                    proof {
                        assert(res@ is Match);
                        assert(res@->Match_1 =~= Seq::new(
                            outv.len(),
                            |i: int| (outv[i].0@, stmt_view(outv[i].1)),
                        ));
                        assert(res@->Match_2 == Some(Box::new(ov@)));
                        assert(sw0@->Match_2 == Some(Box::new(othv@)));
                        assert(res@ =~= spec_visit_switch(decls@, sw0@).0);
                    }
                    (res, errors)
                },
                None => {
                    let ghost outv = out@;
                    let res = Switch::Match(pl, out, None);
                    proof {
                        assert(res@ is Match);
                        assert(res@->Match_1 =~= Seq::new(
                            outv.len(),
                            |i: int| (outv[i].0@, stmt_view(outv[i].1)),
                        ));
                        assert(sw0@->Match_2 == Option::<Box<StatementView>>::None);
                        assert(res@ =~= spec_visit_switch(decls@, sw0@).0);
                    }
                    (res, errors)
                },
            }
        },
    }
}


/// The local errors that normalizing a body registers.
pub open spec fn spec_body_errors(decls: Seq<TypeDecl>, body: Option<Statement>) -> nat {
    match body {
        Some(b) => spec_visit(decls, b@).1,
        None => 0nat,
    }
}

/// How a function declaration looks after the pass: every field kept, and
/// the body, when there is one, normalized.
pub open spec fn spec_fun_transformed(decls: Seq<TypeDecl>, f0: FunDecl, f1: FunDecl) -> bool {
    &&& f1.def_id == f0.def_id
    &&& f1.item_meta == f0.item_meta
    &&& f1.is_local == f0.is_local
    &&& f1.name == f0.name
    &&& f1.signature == f0.signature
    &&& match (f0.body, f1.body) {
        (Some(b0), Some(b1)) => b1@ == spec_visit(decls, b0@).0,
        (None, None) => true,
        _ => false,
    }
}

/// How a global declaration looks after the pass.
pub open spec fn spec_global_transformed(decls: Seq<TypeDecl>, g0: GlobalDecl, g1: GlobalDecl) -> bool {
    &&& g1.def_id == g0.def_id
    &&& g1.item_meta == g0.item_meta
    &&& g1.is_local == g0.is_local
    &&& g1.name == g0.name
    &&& g1.ty == g0.ty
    &&& match (g0.body, g1.body) {
        (Some(b0), Some(b1)) => b1@ == spec_visit(decls, b0@).0,
        (None, None) => true,
        _ => false,
    }
}

/// The local errors registered across all function bodies.
pub open spec fn spec_funs_errors(decls: Seq<TypeDecl>, funs: Seq<FunDecl>) -> nat
    decreases funs.len(),
{
    if funs.len() == 0 {
        0nat
    } else {
        spec_funs_errors(decls, funs.drop_last()) + spec_body_errors(decls, funs.last().body)
    }
}

/// The local errors registered across all global initializer bodies.
pub open spec fn spec_globals_errors(decls: Seq<TypeDecl>, globals: Seq<GlobalDecl>) -> nat
    decreases globals.len(),
{
    if globals.len() == 0 {
        0nat
    } else {
        spec_globals_errors(decls, globals.drop_last()) + spec_body_errors(
            decls,
            globals.last().body,
        )
    }
}

/// Run the pass over every function and global body of the crate.
///
/// Bodies are independent: each is rewritten against the shared type
/// declaration table, and the context's error counter advances by the
/// number of local errors found, saturating at its maximum. Nothing else
/// in the context changes.
pub fn transform(ctx: &mut TransCtx, funs: &mut Vec<FunDecl>, globals: &mut Vec<GlobalDecl>)
    ensures
        final(funs)@.len() == old(funs)@.len(),
        forall|i: int|
            0 <= i < old(funs)@.len() ==> spec_fun_transformed(
                old(ctx).type_decls@,
                old(funs)@[i],
                #[trigger] final(funs)@[i],
            ),
        final(globals)@.len() == old(globals)@.len(),
        forall|i: int|
            0 <= i < old(globals)@.len() ==> spec_global_transformed(
                old(ctx).type_decls@,
                old(globals)@[i],
                #[trigger] final(globals)@[i],
            ),
        final(ctx).type_decls == old(ctx).type_decls,
        final(ctx).trait_decls == old(ctx).trait_decls,
        final(ctx).trait_impls == old(ctx).trait_impls,
        final(ctx).id_to_file == old(ctx).id_to_file,
        final(ctx).ordered_decls == old(ctx).ordered_decls,
        final(ctx).error_count == sat64(
            old(ctx).error_count as nat + spec_funs_errors(old(ctx).type_decls@, old(funs)@)
                + spec_globals_errors(old(ctx).type_decls@, old(globals)@),
        ),
{
    let ghost decls0 = old(ctx).type_decls@;
    let ghost funs0 = *old(funs);
    let ghost globals0 = *old(globals);

    let mut errs: u64 = 0;
    let mut outf: Vec<FunDecl> = Vec::new();
    while funs.len() > 0
        invariant
            *ctx == *old(ctx),
            decls0 == ctx.type_decls@,
            outf@.len() + funs@.len() == funs0@.len(),
            funs@ == funs0@.subrange(outf@.len() as int, funs0@.len() as int),
            forall|j: int|
                0 <= j < outf@.len() ==> spec_fun_transformed(
                    decls0,
                    funs0@[j],
                    #[trigger] outf@[j],
                ),
            errs == sat64(spec_funs_errors(decls0, funs0@.take(outf@.len() as int))),
        decreases funs@.len(),
    {
        let ghost k = outf@.len() as int;
        let f = funs.remove(0);
        proof {
            assert(f == funs0@[k]);
        }
        let FunDecl { def_id, item_meta, is_local, name, signature, body } = f;
        let (body2, e): (Option<Statement>, u64) = match body {
            Some(b) => {
                let (nb, e) = update_statement(&ctx.type_decls, b);
                (Some(nb), e)
            },
            None => (None, 0),
        };
        proof {
            lemma_sat64_add(
                spec_funs_errors(decls0, funs0@.take(k)),
                spec_body_errors(decls0, funs0@[k].body),
            );
            assert(funs0@.take(k + 1).drop_last() =~= funs0@.take(k));
            assert(funs0@.take(k + 1).last() == funs0@[k]);
        }
        errs = sat_add64(errs, e);
        outf.push(FunDecl { def_id, item_meta, is_local, name, signature, body: body2 });
        proof {
            assert(funs@ =~= funs0@.subrange(outf@.len() as int, funs0@.len() as int));
        }
    }
    proof {
        assert(funs0@.take(funs0@.len() as int) =~= funs0@);
    }
    *funs = outf;

    let mut outg: Vec<GlobalDecl> = Vec::new();
    while globals.len() > 0
        invariant
            *ctx == *old(ctx),
            decls0 == ctx.type_decls@,
            outg@.len() + globals@.len() == globals0@.len(),
            globals@ == globals0@.subrange(outg@.len() as int, globals0@.len() as int),
            forall|j: int|
                0 <= j < outg@.len() ==> spec_global_transformed(
                    decls0,
                    globals0@[j],
                    #[trigger] outg@[j],
                ),
            errs == sat64(
                spec_funs_errors(decls0, funs0@) + spec_globals_errors(
                    decls0,
                    globals0@.take(outg@.len() as int),
                ),
            ),
        decreases globals@.len(),
    {
        let ghost k = outg@.len() as int;
        let g = globals.remove(0);
        proof {
            assert(g == globals0@[k]);
        }
        let GlobalDecl { def_id, item_meta, is_local, name, ty, body } = g;
        let (body2, e): (Option<Statement>, u64) = match body {
            Some(b) => {
                let (nb, e) = update_statement(&ctx.type_decls, b);
                (Some(nb), e)
            },
            None => (None, 0),
        };
        proof {
            lemma_sat64_add(
                spec_funs_errors(decls0, funs0@) + spec_globals_errors(
                    decls0,
                    globals0@.take(k),
                ),
                spec_body_errors(decls0, globals0@[k].body),
            );
            assert(globals0@.take(k + 1).drop_last() =~= globals0@.take(k));
            assert(globals0@.take(k + 1).last() == globals0@[k]);
        }
        errs = sat_add64(errs, e);
        outg.push(GlobalDecl { def_id, item_meta, is_local, name, ty, body: body2 });
        proof {
            assert(globals@ =~= globals0@.subrange(outg@.len() as int, globals0@.len() as int));
        }
    }
    proof {
        assert(globals0@.take(globals0@.len() as int) =~= globals0@);
    }
    *globals = outg;

    proof {
        lemma_sat64_add(
            old(ctx).error_count as nat,
            spec_funs_errors(decls0, funs0@) + spec_globals_errors(decls0, globals0@),
        );
    }
    ctx.error_count = sat_add64(ctx.error_count, errs);
}



// ------------------------------------------------------------------
// Laws of the pass.
// ------------------------------------------------------------------

/// The sets of bit patterns used by the pass are finite.
proof fn lemma_arm_bits_finite(values: Seq<ScalarValue>)
    ensures
        spec_arm_bits(values).finite(),
    decreases values.len(),
{
    if values.len() > 0 {
        lemma_arm_bits_finite(values.drop_last());
    }
}

/// The covered-value set is finite.
proof fn lemma_covered_bits_finite(arms: Seq<Seq<ScalarValue>>)
    ensures
        spec_covered_bits(arms).finite(),
    decreases arms.len(),
{
    if arms.len() > 0 {
        lemma_covered_bits_finite(arms.drop_last());
        lemma_arm_bits_finite(arms.last());
    }
}

/// The set of distinct discriminants of an enum is finite.
proof fn lemma_variant_discrs_finite(variants: Seq<Variant>)
    ensures
        spec_variant_discrs(variants).finite(),
    decreases variants.len(),
{
    if variants.len() > 0 {
        lemma_variant_discrs_finite(variants.drop_last());
    }
}

/// The rewritten arms contain no discriminant read.
proof fn lemma_arms_no_discr(
    decls: Seq<TypeDecl>,
    variants: Seq<Variant>,
    targets: Seq<(Seq<ScalarValue>, StatementView)>,
)
    ensures
        spec_visit_arms(decls, variants, targets).0.len() == targets.len(),
        forall|i: int|
            0 <= i < targets.len() ==> !spec_has_read_discriminant(
                #[trigger] spec_visit_arms(decls, variants, targets).0[i].1,
            ),
    decreases targets,
{
    if targets.len() > 0 {
        lemma_arms_no_discr(decls, variants, targets.drop_last());
        lemma_visit_no_discr(decls, targets.last().1);
    }
}

/// The normalized branches of an integer switch contain no discriminant
/// read.
proof fn lemma_int_arms_no_discr(
    decls: Seq<TypeDecl>,
    targets: Seq<(Seq<ScalarValue>, StatementView)>,
)
    ensures
        spec_visit_int_arms(decls, targets).0.len() == targets.len(),
        forall|i: int|
            0 <= i < targets.len() ==> !spec_has_read_discriminant(
                #[trigger] spec_visit_int_arms(decls, targets).0[i].1,
            ),
    decreases targets,
{
    if targets.len() > 0 {
        lemma_int_arms_no_discr(decls, targets.drop_last());
        lemma_visit_no_discr(decls, targets.last().1);
    }
}

/// The normalized branches of a match contain no discriminant read.
proof fn lemma_match_arms_no_discr(
    decls: Seq<TypeDecl>,
    targets: Seq<(Seq<VariantId>, StatementView)>,
)
    ensures
        spec_visit_match_arms(decls, targets).0.len() == targets.len(),
        forall|i: int|
            0 <= i < targets.len() ==> !spec_has_read_discriminant(
                #[trigger] spec_visit_match_arms(decls, targets).0[i].1,
            ),
    decreases targets,
{
    if targets.len() > 0 {
        lemma_match_arms_no_discr(decls, targets.drop_last());
        lemma_visit_no_discr(decls, targets.last().1);
    }
}

/// A normalized occurrence contains no discriminant read.
proof fn lemma_occurrence_no_discr(
    decls: Seq<TypeDecl>,
    st_meta: Meta,
    meta1: Meta,
    dest: PlaceView,
    p: PlaceView,
    adt_id: TypeDeclId,
    s2: StatementView,
)
    ensures
        !spec_has_read_discriminant(
            spec_visit_occurrence(decls, st_meta, meta1, dest, p, adt_id, s2).0,
        ),
    decreases s2,
{
    reveal_with_fuel(spec_has_read_discriminant, 4);
    reveal_with_fuel(spec_switch_has_read_discriminant, 4);
    match s2.content {
        RawStatementView::Sequence(s21, s3) => {
            match s21.content {
                RawStatementView::Switch(SwitchView::SwitchInt(op, _ty, targets, otherwise)) => {
                    if spec_reads_dest(op, dest) && adt_id.index < decls.len() && decls[
                        adt_id.index as int
                    ].kind is Enum {
                        let variants = decls[adt_id.index as int].kind->Enum_0@;
                        lemma_arms_no_discr(decls, variants, targets);
                        lemma_visit_no_discr(decls, *otherwise);
                        lemma_visit_no_discr(decls, *s3);
                    }
                },
                _ => {},
            }
        },
        RawStatementView::Switch(SwitchView::SwitchInt(op, _ty, targets, otherwise)) => {
            if spec_reads_dest(op, dest) && adt_id.index < decls.len() && decls[
                adt_id.index as int
            ].kind is Enum {
                let variants = decls[adt_id.index as int].kind->Enum_0@;
                lemma_arms_no_discr(decls, variants, targets);
                lemma_visit_no_discr(decls, *otherwise);
            }
        },
        _ => {},
    }
}

/// A normalized switch contains no discriminant read.
proof fn lemma_switch_no_discr(decls: Seq<TypeDecl>, sw: SwitchView)
    ensures
        !spec_switch_has_read_discriminant(spec_visit_switch(decls, sw).0),
    decreases sw,
{
    match sw {
        SwitchView::If(_, s1, s2) => {
            lemma_visit_no_discr(decls, *s1);
            lemma_visit_no_discr(decls, *s2);
        },
        SwitchView::SwitchInt(_, _, targets, otherwise) => {
            lemma_int_arms_no_discr(decls, targets);
            lemma_visit_no_discr(decls, *otherwise);
        },
        SwitchView::Match(_, targets, otherwise) => {
            lemma_match_arms_no_discr(decls, targets);
            match otherwise {
                Some(o) => {
                    lemma_visit_no_discr(decls, *o);
                },
                None => {},
            }
        },
    }
}

/// Terminal state: a normalized statement tree contains no discriminant
/// read at all, whatever the input was. Every surviving raw occurrence is
/// either rewritten into a match or degraded to a no-op.
pub proof fn lemma_visit_no_discr(decls: Seq<TypeDecl>, st: StatementView)
    ensures
        !spec_has_read_discriminant(spec_visit(decls, st).0),
    decreases st,
{
    match st.content {
        RawStatementView::Sequence(s1, s2) => {
            match s1.content {
                RawStatementView::Assign(dest, RvalueView::Discriminant(p, adt_id)) => {
                    lemma_occurrence_no_discr(decls, st.meta, s1.meta, dest, p, adt_id, *s2);
                },
                _ => {
                    lemma_visit_no_discr(decls, *s1);
                    lemma_visit_no_discr(decls, *s2);
                },
            }
        },
        RawStatementView::Switch(sw) => {
            lemma_switch_no_discr(decls, sw);
        },
        RawStatementView::Loop(b) => {
            lemma_visit_no_discr(decls, *b);
        },
        _ => {},
    }
}

/// The pass leaves the branches of an integer switch without discriminant
/// reads unchanged.
proof fn lemma_int_arms_identity(decls: Seq<TypeDecl>, targets: Seq<(Seq<ScalarValue>, StatementView)>)
    requires
        forall|i: int|
            0 <= i < targets.len() ==> !spec_has_read_discriminant(#[trigger] targets[i].1),
    ensures
        spec_visit_int_arms(decls, targets) == (targets, 0nat),
    decreases targets,
{
    if targets.len() == 0 {
        assert(spec_visit_int_arms(decls, targets).0 =~= targets);
    } else {
        lemma_int_arms_identity(decls, targets.drop_last());
        lemma_visit_identity(decls, targets.last().1);
        assert(targets.drop_last().push((targets.last().0, targets.last().1)) =~= targets);
    }
}

/// The pass leaves the branches of a match without discriminant reads
/// unchanged.
proof fn lemma_match_arms_identity(decls: Seq<TypeDecl>, targets: Seq<(Seq<VariantId>, StatementView)>)
    requires
        forall|i: int|
            0 <= i < targets.len() ==> !spec_has_read_discriminant(#[trigger] targets[i].1),
    ensures
        spec_visit_match_arms(decls, targets) == (targets, 0nat),
    decreases targets,
{
    if targets.len() == 0 {
        assert(spec_visit_match_arms(decls, targets).0 =~= targets);
    } else {
        lemma_match_arms_identity(decls, targets.drop_last());
        lemma_visit_identity(decls, targets.last().1);
        assert(targets.drop_last().push((targets.last().0, targets.last().1)) =~= targets);
    }
}

/// A switch without discriminant reads is left unchanged by the pass.
proof fn lemma_switch_identity(decls: Seq<TypeDecl>, sw: SwitchView)
    requires
        !spec_switch_has_read_discriminant(sw),
    ensures
        spec_visit_switch(decls, sw) == (sw, 0nat),
    decreases sw,
{
    match sw {
        SwitchView::If(op, s1, s2) => {
            lemma_visit_identity(decls, *s1);
            lemma_visit_identity(decls, *s2);
            assert(Box::new(*s1) == s1);
            assert(Box::new(*s2) == s2);
        },
        SwitchView::SwitchInt(op, ty, targets, otherwise) => {
            lemma_int_arms_identity(decls, targets);
            lemma_visit_identity(decls, *otherwise);
            assert(Box::new(*otherwise) == otherwise);
        },
        SwitchView::Match(pl, targets, otherwise) => {
            lemma_match_arms_identity(decls, targets);
            match otherwise {
                Some(o) => {
                    lemma_visit_identity(decls, *o);
                    assert(Box::new(*o) == o);
                },
                None => {},
            }
        },
    }
}

/// A statement tree without discriminant reads is left unchanged by the
/// pass, and registers no error.
pub proof fn lemma_visit_identity(decls: Seq<TypeDecl>, st: StatementView)
    requires
        !spec_has_read_discriminant(st),
    ensures
        spec_visit(decls, st) == (st, 0nat),
    decreases st,
{
    match st.content {
        RawStatementView::Sequence(s1, s2) => {
            lemma_visit_identity(decls, *s1);
            lemma_visit_identity(decls, *s2);
            assert(Box::new(*s1) == s1);
            assert(Box::new(*s2) == s2);
            assert(StatementView {
                meta: st.meta,
                content: RawStatementView::Sequence(s1, s2),
            } == st);
        },
        RawStatementView::Switch(sw) => {
            lemma_switch_identity(decls, sw);
            assert(StatementView { meta: st.meta, content: RawStatementView::Switch(sw) } == st);
        },
        RawStatementView::Loop(b) => {
            lemma_visit_identity(decls, *b);
            assert(Box::new(*b) == b);
            assert(StatementView { meta: st.meta, content: RawStatementView::Loop(b) } == st);
        },
        _ => {},
    }
}

/// Idempotence: normalizing a statement tree twice yields exactly the
/// result of normalizing it once, and the second run registers no error.
pub proof fn lemma_visit_idempotent(decls: Seq<TypeDecl>, st: StatementView)
    ensures
        spec_visit(decls, spec_visit(decls, st).0) == (spec_visit(decls, st).0, 0nat),
{
    lemma_visit_no_discr(decls, st);
    lemma_visit_identity(decls, spec_visit(decls, st).0);
}

/// Coverage correctness: a well-shaped occurrence over a known enum is
/// rewritten into a match on the enum place, and the default branch is
/// dropped exactly when the raw values covered across the arms count as
/// many as the enum's distinct discriminants.
pub proof fn lemma_coverage_correctness(
    decls: Seq<TypeDecl>,
    st_meta: Meta,
    meta1: Meta,
    dest: PlaceView,
    p: PlaceView,
    adt_id: TypeDeclId,
    s2: StatementView,
    op: OperandView,
    ty: IntegerTy,
    targets: Seq<(Seq<ScalarValue>, StatementView)>,
    otherwise: Box<StatementView>,
)
    requires
        s2.content == RawStatementView::Switch(SwitchView::SwitchInt(op, ty, targets, otherwise)),
        spec_reads_dest(op, dest),
        adt_id.index < decls.len(),
        decls[adt_id.index as int].kind is Enum,
    ensures
        ({
            let r = spec_visit_occurrence(decls, st_meta, meta1, dest, p, adt_id, s2).0;
            let variants = decls[adt_id.index as int].kind->Enum_0@;
            let covered = spec_covered_bits(Seq::new(targets.len(), |i: int| targets[i].0));
            &&& r.content is Switch
            &&& r.content->Switch_0 is Match
            &&& r.content->Switch_0->Match_0 == p
            &&& (r.content->Switch_0->Match_2 is None <==> covered.len() == spec_variant_discrs(
                variants,
            ).len())
        }),
{
}

/// Full coverage: when the covered raw values are exactly the enum's
/// distinct discriminants, the default branch is dropped.
pub proof fn lemma_full_coverage_drops_otherwise(
    decls: Seq<TypeDecl>,
    st_meta: Meta,
    meta1: Meta,
    dest: PlaceView,
    p: PlaceView,
    adt_id: TypeDeclId,
    s2: StatementView,
    op: OperandView,
    ty: IntegerTy,
    targets: Seq<(Seq<ScalarValue>, StatementView)>,
    otherwise: Box<StatementView>,
)
    requires
        s2.content == RawStatementView::Switch(SwitchView::SwitchInt(op, ty, targets, otherwise)),
        spec_reads_dest(op, dest),
        adt_id.index < decls.len(),
        decls[adt_id.index as int].kind is Enum,
        spec_covered_bits(Seq::new(targets.len(), |i: int| targets[i].0)) == spec_variant_discrs(
            decls[adt_id.index as int].kind->Enum_0@,
        ),
    ensures
        spec_visit_occurrence(decls, st_meta, meta1, dest, p, adt_id, s2).0.content->Switch_0
            ->Match_2 is None,
{
    lemma_coverage_correctness(
        decls,
        st_meta,
        meta1,
        dest,
        p,
        adt_id,
        s2,
        op,
        ty,
        targets,
        otherwise,
    );
}

/// Partial coverage: when the covered raw values form a proper subset of
/// the enum's distinct discriminants, the default branch is kept, and it
/// is the normalization of the original default branch.
pub proof fn lemma_partial_coverage_keeps_otherwise(
    decls: Seq<TypeDecl>,
    st_meta: Meta,
    meta1: Meta,
    dest: PlaceView,
    p: PlaceView,
    adt_id: TypeDeclId,
    s2: StatementView,
    op: OperandView,
    ty: IntegerTy,
    targets: Seq<(Seq<ScalarValue>, StatementView)>,
    otherwise: Box<StatementView>,
    missing: u128,
)
    requires
        s2.content == RawStatementView::Switch(SwitchView::SwitchInt(op, ty, targets, otherwise)),
        spec_reads_dest(op, dest),
        adt_id.index < decls.len(),
        decls[adt_id.index as int].kind is Enum,
        spec_covered_bits(Seq::new(targets.len(), |i: int| targets[i].0)).subset_of(
            spec_variant_discrs(decls[adt_id.index as int].kind->Enum_0@),
        ),
        !spec_covered_bits(Seq::new(targets.len(), |i: int| targets[i].0)).contains(missing),
        spec_variant_discrs(decls[adt_id.index as int].kind->Enum_0@).contains(missing),
    ensures
        spec_visit_occurrence(decls, st_meta, meta1, dest, p, adt_id, s2).0.content->Switch_0
            ->Match_2 == Some(
            Box::new(spec_visit(decls, *otherwise).0),
        ),
{
    let covered = spec_covered_bits(Seq::new(targets.len(), |i: int| targets[i].0));
    let discrs = spec_variant_discrs(decls[adt_id.index as int].kind->Enum_0@);
    lemma_variant_discrs_finite(decls[adt_id.index as int].kind->Enum_0@);
    covered.lemma_subset_not_in_lt(discrs, missing);
    lemma_coverage_correctness(
        decls,
        st_meta,
        meta1,
        dest,
        p,
        adt_id,
        s2,
        op,
        ty,
        targets,
        otherwise,
    );
}


/// Terminal state at the declaration level: after the pass, a function
/// body contains no discriminant read.
pub proof fn lemma_transformed_fun_normalized(decls: Seq<TypeDecl>, f0: FunDecl, f1: FunDecl)
    requires
        spec_fun_transformed(decls, f0, f1),
        f1.body is Some,
    ensures
        !spec_has_read_discriminant(f1.body->0@),
{
    lemma_visit_no_discr(decls, f0.body->0@);
}

/// Terminal state at the declaration level: after the pass, a global
/// initializer body contains no discriminant read.
pub proof fn lemma_transformed_global_normalized(
    decls: Seq<TypeDecl>,
    g0: GlobalDecl,
    g1: GlobalDecl,
)
    requires
        spec_global_transformed(decls, g0, g1),
        g1.body is Some,
    ensures
        !spec_has_read_discriminant(g1.body->0@),
{
    lemma_visit_no_discr(decls, g0.body->0@);
}

} // verus!
