//! Primitive values: integer scalars of every width, booleans, characters.

use vstd::prelude::*;

verus! {

/// A scalar value of a concrete integer type.
#[derive(Debug, Clone, Copy, PartialEq, Eq, Structural, Hash)]
pub enum ScalarValue {
    Isize(i64),
    I8(i8),
    I16(i16),
    I32(i32),
    I64(i64),
    I128(i128),
    Usize(u64),
    U8(u8),
    U16(u16),
    U32(u32),
    U64(u64),
    U128(u128),
}

/// A literal (primitive) value.
#[derive(Debug, Clone, Copy, PartialEq, Eq, Structural, Hash)]
pub enum Literal {
    Scalar(ScalarValue),
    Bool(bool),
    Char(char),
}

/// The unsigned bit pattern of a scalar, at the scalar's own width.
///
/// A signed value is reinterpreted as unsigned at its exact bit width and
/// then widened, so for example the 8-bit value `-1` yields `255`, not a
/// sign-extended pattern. Enum discriminants are stored and compared as
/// such width-exact bit patterns.
pub open spec fn spec_to_bits(v: ScalarValue) -> u128 {
    match v {
        ScalarValue::Isize(x) => (x as u64) as u128,
        ScalarValue::I8(x) => (x as u8) as u128,
        ScalarValue::I16(x) => (x as u16) as u128,
        ScalarValue::I32(x) => (x as u32) as u128,
        ScalarValue::I64(x) => (x as u64) as u128,
        ScalarValue::I128(x) => x as u128,
        ScalarValue::Usize(x) => x as u128,
        ScalarValue::U8(x) => x as u128,
        ScalarValue::U16(x) => x as u128,
        ScalarValue::U32(x) => x as u128,
        ScalarValue::U64(x) => x as u128,
        ScalarValue::U128(x) => x,
    }
}

impl ScalarValue {
    /// The unsigned bit pattern of this scalar, width-exact.
    pub fn to_bits(&self) -> (r: u128)
        ensures
            r == spec_to_bits(*self),
    {
        match *self {
            ScalarValue::Isize(x) => (x as u64) as u128,
            ScalarValue::I8(x) => (x as u8) as u128,
            ScalarValue::I16(x) => (x as u16) as u128,
            ScalarValue::I32(x) => (x as u32) as u128,
            ScalarValue::I64(x) => (x as u64) as u128,
            ScalarValue::I128(x) => x as u128,
            ScalarValue::Usize(x) => x as u128,
            ScalarValue::U8(x) => x as u128,
            ScalarValue::U16(x) => x as u128,
            ScalarValue::U32(x) => x as u128,
            ScalarValue::U64(x) => x as u128,
            ScalarValue::U128(x) => x,
        }
    }
}

} // verus!
