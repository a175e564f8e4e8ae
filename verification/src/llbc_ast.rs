//! The structured body representation: statement trees.
//!
//! Bodies are trees of statements: sequences, structured switches
//! (if / integer switch / match on enum variants) and loops. Every type
//! here has a mathematical view (`...View`) used by the contracts of the
//! passes that rewrite bodies.

use crate::ids::{FunDeclId, GlobalDeclId, TypeDeclId, VarId, VariantId};
use crate::meta::{combine_meta, spec_combine_meta, ItemMeta, Meta};
use crate::names::Name;
use crate::types::{FunSig, IntegerTy, RefKind, Ty};
use crate::values::{Literal, ScalarValue};
use vstd::prelude::*;

verus! {

broadcast use vstd::std_specs::vec::group_vec_axioms;

/// One element of a place's projection.
#[derive(Debug, Clone, Copy, PartialEq, Eq, Structural, Hash)]
pub enum ProjectionElem {
    /// Dereference the place.
    Deref,
    /// Project a field out of an ADT or a tuple.
    Field(FieldId),
}

pub use crate::ids::FieldId;

/// A place: a local variable together with a projection into it.
#[derive(Debug)]
pub struct Place {
    pub var_id: VarId,
    pub projection: Vec<ProjectionElem>,
}

/// The view of a place.
#[verifier::ext_equal]
pub ghost struct PlaceView {
    pub var_id: VarId,
    pub projection: Seq<ProjectionElem>,
}

impl View for Place {
    type V = PlaceView;

    open spec fn view(&self) -> PlaceView {
        PlaceView { var_id: self.var_id, projection: self.projection@ }
    }
}

/// An operand of an rvalue or of a switch.
#[derive(Debug)]
pub enum Operand {
    /// Read the place, copying the value.
    Copy(Place),
    /// Read the place, moving the value out.
    Move(Place),
    /// A literal constant.
    Const(Literal),
}

/// The view of an operand.
#[verifier::ext_equal]
pub ghost enum OperandView {
    Copy(PlaceView),
    Move(PlaceView),
    Const(Literal),
}

impl View for Operand {
    type V = OperandView;

    open spec fn view(&self) -> OperandView {
        match *self {
            Operand::Copy(p) => OperandView::Copy(p@),
            Operand::Move(p) => OperandView::Move(p@),
            Operand::Const(l) => OperandView::Const(l),
        }
    }
}

/// The right-hand side of an assignment.
#[derive(Debug)]
pub enum Rvalue {
    /// Read an operand.
    Use(Operand),
    /// Take a reference to a place.
    Ref(Place, RefKind),
    /// Read the discriminant of an enum-typed place. The type identifier
    /// names the enum declaration. The normalization pass eliminates every
    /// occurrence of this rvalue.
    Discriminant(Place, TypeDeclId),
}

/// The view of an rvalue.
#[verifier::ext_equal]
pub ghost enum RvalueView {
    Use(OperandView),
    Ref(PlaceView, RefKind),
    Discriminant(PlaceView, TypeDeclId),
}

impl View for Rvalue {
    type V = RvalueView;

    open spec fn view(&self) -> RvalueView {
        match self {
            Rvalue::Use(op) => RvalueView::Use(op@),
            Rvalue::Ref(p, k) => RvalueView::Ref(p@, *k),
            Rvalue::Discriminant(p, id) => RvalueView::Discriminant(p@, *id),
        }
    }
}

/// A statement: a raw statement with its diagnostic metadata.
#[derive(Debug)]
pub struct Statement {
    pub meta: Meta,
    pub content: RawStatement,
}

/// A raw statement.
#[derive(Debug)]
pub enum RawStatement {
    Assign(Place, Rvalue),
    Drop(Place),
    Nop,
    Return,
    /// Two statements in sequence. Longer sequences are nested pairs.
    Sequence(Box<Statement>, Box<Statement>),
    Switch(Switch),
    Loop(Box<Statement>),
}

/// A structured branching statement.
#[derive(Debug)]
pub enum Switch {
    /// Branch on a boolean operand.
    If(Operand, Box<Statement>, Box<Statement>),
    /// Branch on the integer value of an operand: a list of arms, each
    /// covering a list of case values, plus a default branch. This is the
    /// raw form the normalization pass consumes.
    SwitchInt(Operand, IntegerTy, Vec<(Vec<ScalarValue>, Statement)>, Box<Statement>),
    /// Branch on the variant of an enum-typed place: a list of arms, each
    /// covering a list of variants, plus an optional default branch. This
    /// is the structured form the normalization pass produces.
    Match(Place, Vec<(Vec<VariantId>, Statement)>, Option<Box<Statement>>),
}

/// The view of a statement.
#[verifier::ext_equal]
pub ghost struct StatementView {
    pub meta: Meta,
    pub content: RawStatementView,
}

/// The view of a raw statement.
#[verifier::ext_equal]
pub ghost enum RawStatementView {
    Assign(PlaceView, RvalueView),
    Drop(PlaceView),
    Nop,
    Return,
    Sequence(Box<StatementView>, Box<StatementView>),
    Switch(SwitchView),
    Loop(Box<StatementView>),
}

/// The view of a switch.
#[verifier::ext_equal]
pub ghost enum SwitchView {
    If(OperandView, Box<StatementView>, Box<StatementView>),
    SwitchInt(OperandView, IntegerTy, Seq<(Seq<ScalarValue>, StatementView)>, Box<StatementView>),
    Match(PlaceView, Seq<(Seq<VariantId>, StatementView)>, Option<Box<StatementView>>),
}

/// The view of a statement tree.
pub open spec fn stmt_view(s: Statement) -> StatementView
    decreases s,
{
    StatementView { meta: s.meta, content: raw_stmt_view(s.content) }
}

/// The view of a raw statement.
pub open spec fn raw_stmt_view(r: RawStatement) -> RawStatementView
    decreases r,
{
    match r {
        RawStatement::Assign(p, rv) => RawStatementView::Assign(p@, rv@),
        RawStatement::Drop(p) => RawStatementView::Drop(p@),
        RawStatement::Nop => RawStatementView::Nop,
        RawStatement::Return => RawStatementView::Return,
        RawStatement::Sequence(s1, s2) => RawStatementView::Sequence(
            Box::new(stmt_view(*s1)),
            Box::new(stmt_view(*s2)),
        ),
        RawStatement::Switch(sw) => RawStatementView::Switch(switch_view(sw)),
        RawStatement::Loop(b) => RawStatementView::Loop(Box::new(stmt_view(*b))),
    }
}

/// The view of a switch.
pub open spec fn switch_view(sw: Switch) -> SwitchView
    decreases sw,
{
    match sw {
        Switch::If(op, s1, s2) => SwitchView::If(
            op@,
            Box::new(stmt_view(*s1)),
            Box::new(stmt_view(*s2)),
        ),
        Switch::SwitchInt(op, ty, targets, otherwise) => SwitchView::SwitchInt(
            op@,
            ty,
            Seq::new(
                targets@.len(),
                |i: int|
                    if 0 <= i < targets@.len() {
                        (targets@[i].0@, stmt_view(targets@[i].1))
                    } else {
                        arbitrary()
                    },
            ),
            Box::new(stmt_view(*otherwise)),
        ),
        Switch::Match(p, targets, otherwise) => SwitchView::Match(
            p@,
            Seq::new(
                targets@.len(),
                |i: int|
                    if 0 <= i < targets@.len() {
                        (targets@[i].0@, stmt_view(targets@[i].1))
                    } else {
                        arbitrary()
                    },
            ),
            match otherwise {
                Option::Some(b) => Option::Some(Box::new(stmt_view(*b))),
                Option::None => Option::None,
            },
        ),
    }
}

impl View for Statement {
    type V = StatementView;

    open spec fn view(&self) -> StatementView {
        stmt_view(*self)
    }
}

impl View for RawStatement {
    type V = RawStatementView;

    open spec fn view(&self) -> RawStatementView {
        raw_stmt_view(*self)
    }
}

impl View for Switch {
    type V = SwitchView;

    open spec fn view(&self) -> SwitchView {
        switch_view(*self)
    }
}

/// Whether a statement tree contains an assignment whose right-hand side
/// reads a discriminant. A normalized body contains none.
pub open spec fn spec_has_read_discriminant(s: StatementView) -> bool
    decreases s,
{
    match s.content {
        RawStatementView::Assign(_, rv) => rv is Discriminant,
        RawStatementView::Drop(_) => false,
        RawStatementView::Nop => false,
        RawStatementView::Return => false,
        RawStatementView::Sequence(s1, s2) => spec_has_read_discriminant(*s1)
            || spec_has_read_discriminant(*s2),
        RawStatementView::Switch(sw) => spec_switch_has_read_discriminant(sw),
        RawStatementView::Loop(b) => spec_has_read_discriminant(*b),
    }
}

/// Whether any branch of a switch contains a discriminant read.
pub open spec fn spec_switch_has_read_discriminant(sw: SwitchView) -> bool
    decreases sw,
{
    match sw {
        SwitchView::If(_, s1, s2) => spec_has_read_discriminant(*s1) || spec_has_read_discriminant(
            *s2,
        ),
        SwitchView::SwitchInt(_, _, targets, otherwise) => spec_has_read_discriminant(*otherwise)
            || exists|i: int|
            0 <= i < targets.len() && spec_has_read_discriminant(#[trigger] targets[i].1),
        SwitchView::Match(_, targets, otherwise) => (match otherwise {
            Option::Some(b) => spec_has_read_discriminant(*b),
            Option::None => false,
        }) || exists|i: int|
            0 <= i < targets.len() && spec_has_read_discriminant(#[trigger] targets[i].1),
    }
}

/// A copy of a place. Places are plain data; the copy's view equals the
/// original's.
pub fn copy_place(p: &Place) -> (r: Place)
    ensures
        r@ == p@,
{
    let mut projection: Vec<ProjectionElem> = Vec::new();
    let mut i: usize = 0;
    while i < p.projection.len()
        invariant
            i <= p.projection@.len(),
            projection@ == p.projection@.take(i as int),
        decreases p.projection@.len() - i,
    {
        projection.push(p.projection[i]);
        proof {
            assert(projection@ =~= p.projection@.take(i + 1 as int));
        }
        i += 1;
    }
    proof {
        assert(p.projection@.take(p.projection@.len() as int) =~= p.projection@);
    }
    Place { var_id: p.var_id, projection }
}

/// Combine two statements into a sequence whose metadata spans both.
pub fn new_sequence(l: Statement, r: Statement) -> (res: Statement)
    ensures
        res@ == (StatementView {
            meta: spec_combine_meta(l@.meta, r@.meta),
            content: RawStatementView::Sequence(Box::new(l@), Box::new(r@)),
        }),
{
    let meta = combine_meta(&l.meta, &r.meta);
    Statement { meta, content: RawStatement::Sequence(Box::new(l), Box::new(r)) }
}

/// A function declaration with a structured body. Declarations of external
/// functions carry no body.
#[derive(Debug)]
pub struct FunDecl {
    pub def_id: FunDeclId,
    pub item_meta: ItemMeta,
    pub is_local: bool,
    pub name: Name,
    pub signature: FunSig,
    pub body: Option<Statement>,
}

/// A global declaration with a structured initializer body.
#[derive(Debug)]
pub struct GlobalDecl {
    pub def_id: GlobalDeclId,
    pub item_meta: ItemMeta,
    pub is_local: bool,
    pub name: Name,
    pub ty: Ty,
    pub body: Option<Statement>,
}


/// Whether a statement tree contains a discriminant read. After the
/// normalization pass this returns false on every body.
pub fn has_read_discriminant(st: &Statement) -> (r: bool)
    ensures
        r == spec_has_read_discriminant(st@),
    decreases *st,
{
    match &st.content {
        RawStatement::Assign(_, rv) => match rv {
            Rvalue::Discriminant(_, _) => true,
            _ => false,
        },
        RawStatement::Drop(_) => false,
        RawStatement::Nop => false,
        RawStatement::Return => false,
        RawStatement::Sequence(s1, s2) => has_read_discriminant(s1) || has_read_discriminant(s2),
        RawStatement::Switch(sw) => switch_has_read_discriminant(sw),
        RawStatement::Loop(b) => has_read_discriminant(b),
    }
}

/// Whether any branch of a switch contains a discriminant read.
#[verifier::loop_isolation(false)]
pub fn switch_has_read_discriminant(sw: &Switch) -> (r: bool)
    ensures
        r == spec_switch_has_read_discriminant(sw@),
    decreases *sw,
{
    match sw {
        Switch::If(_, s1, s2) => has_read_discriminant(s1) || has_read_discriminant(s2),
        Switch::SwitchInt(_, _, targets, otherwise) => {
            if has_read_discriminant(otherwise) {
                return true;
            }
            let ghost armviews = sw@->SwitchInt_2;
            let mut i: usize = 0;
            while i < targets.len()
                invariant
                    i <= targets@.len(),
                    armviews == sw@->SwitchInt_2,
                    armviews.len() == targets@.len(),
                    forall|j: int|
                        0 <= j < i ==> !spec_has_read_discriminant(#[trigger] armviews[j].1),
                decreases targets@.len() - i,
            {
                proof {
                    assert(armviews[i as int].1 == stmt_view(targets@[i as int].1));
                }
                if has_read_discriminant(&targets[i].1) {
                    return true;
                }
                i += 1;
            }
            false
        },
        Switch::Match(_, targets, otherwise) => {
            let oth_has = match otherwise {
                Some(o) => has_read_discriminant(o),
                None => false,
            };
            if oth_has {
                return true;
            }
            let ghost armviews = sw@->Match_1;
            let mut i: usize = 0;
            while i < targets.len()
                invariant
                    i <= targets@.len(),
                    armviews == sw@->Match_1,
                    armviews.len() == targets@.len(),
                    forall|j: int|
                        0 <= j < i ==> !spec_has_read_discriminant(#[trigger] armviews[j].1),
                decreases targets@.len() - i,
            {
                proof {
                    assert(armviews[i as int].1 == stmt_view(targets@[i as int].1));
                }
                if has_read_discriminant(&targets[i].1) {
                    return true;
                }
                i += 1;
            }
            false
        },
    }
}

} // verus!
