//! Typed intermediate representation of a translated crate.
//!
//! This library holds the generic type and trait data model of the
//! representation, the normalization pass that folds raw
//! "read the discriminant, then switch on its value" statement pairs into
//! structured matches on enum variants, and the assembly and serialization
//! of the final crate snapshot.

pub mod export;
pub mod gast;
pub mod ids;
pub mod json;
pub mod llbc_ast;
pub mod meta;
pub mod names;
pub mod remove_read_discriminant;
pub mod reorder_decls;
pub mod serialize;
pub mod translate_ctx;
pub mod types;
pub mod ullbc_ast;
pub mod values;
