//! The unstructured body representation: basic blocks with terminators.
//!
//! This is the shape bodies have before control flow is reconstructed; the
//! exported snapshot of a crate can carry either this representation or
//! the structured one.

use crate::ids::{BlockId, FunDeclId, GlobalDeclId};
use crate::llbc_ast::{Operand, Place, Rvalue};
use crate::meta::{ItemMeta, Meta};
use crate::names::Name;
use crate::types::{FunSig, IntegerTy, Ty};
use crate::values::ScalarValue;
use vstd::prelude::*;

verus! {

/// A statement of a basic block.
#[derive(Debug)]
pub struct Statement {
    pub meta: Meta,
    pub content: RawStatement,
}

/// A raw statement of a basic block: straight-line code only; branching
/// lives in the block's terminator.
#[derive(Debug)]
pub enum RawStatement {
    Assign(Place, Rvalue),
    Drop(Place),
    Nop,
}

/// A block terminator.
#[derive(Debug)]
pub struct Terminator {
    pub meta: Meta,
    pub content: RawTerminator,
}

/// A raw block terminator.
#[derive(Debug)]
pub enum RawTerminator {
    /// Jump to another block.
    Goto(BlockId),
    /// Branch on the integer value of an operand: per-value targets and a
    /// default target.
    Switch(Operand, IntegerTy, Vec<(ScalarValue, BlockId)>, BlockId),
    Return,
    /// An unreachable point of the control-flow graph.
    Unreachable,
}

/// One basic block: straight-line statements and a terminator.
#[derive(Debug)]
pub struct BlockData {
    pub statements: Vec<Statement>,
    pub terminator: Terminator,
}

/// A function declaration with an unstructured body.
#[derive(Debug)]
pub struct FunDecl {
    pub def_id: FunDeclId,
    pub item_meta: ItemMeta,
    pub is_local: bool,
    pub name: Name,
    pub signature: FunSig,
    pub body: Option<Vec<BlockData>>,
}

/// A global declaration with an unstructured initializer body.
#[derive(Debug)]
pub struct GlobalDecl {
    pub def_id: GlobalDeclId,
    pub item_meta: ItemMeta,
    pub is_local: bool,
    pub name: Name,
    pub ty: Ty,
    pub body: Option<Vec<BlockData>>,
}

} // verus!
