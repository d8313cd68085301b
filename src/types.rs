use vstd::prelude::*;

verus! {

/// The runtime tag that identifies an element type.
#[derive(Clone, Copy, Debug, PartialEq, Eq, Structural)]
pub enum TypeCode {
    Bool,
    Int8,
    Int32,
    UInt64,
}

/// The type descriptor of an element type, as the storage engine knows it.
#[derive(Clone, Copy, Debug, PartialEq, Eq, Structural)]
pub struct SparseType {
    pub code: TypeCode,
}

/// The kinds of binary operation that an operator can name.
#[derive(Clone, Copy, Debug, PartialEq, Eq, Structural)]
pub enum OpKind {
    First,
    Second,
    Lor,
    Land,
    Lxor,
    Plus,
    Times,
    Min,
    Max,
}

/// An element type that containers and operators can hold: it has a type
/// descriptor, and every operation kind is defined on it.
pub trait TypeEncoder: Copy + Sized {
    spec fn type_code() -> TypeCode;

    /// What `kind` computes from `a` and `b`.
    spec fn spec_apply(kind: OpKind, a: Self, b: Self) -> Self;

    fn blas_type() -> (r: SparseType)
        ensures
            r.code == Self::type_code(),
    ;

    fn apply(kind: OpKind, a: Self, b: Self) -> (r: Self)
        ensures
            r == Self::spec_apply(kind, a, b),
    ;
}

/// An element type whose values can stand for a boolean, as a mask reads them.
pub trait CanBool: Copy + Sized {
    spec fn spec_as_bool(v: Self) -> bool;

    fn as_bool(v: Self) -> (r: bool)
        ensures
            r == Self::spec_as_bool(v),
    ;
}

impl TypeEncoder for bool {
    open spec fn type_code() -> TypeCode {
        TypeCode::Bool
    }

    open spec fn spec_apply(kind: OpKind, a: bool, b: bool) -> bool {
        match kind {
            OpKind::First => a,
            OpKind::Second => b,
            OpKind::Lor | OpKind::Plus | OpKind::Max => a || b,
            OpKind::Land | OpKind::Times | OpKind::Min => a && b,
            OpKind::Lxor => a != b,
        }
    }

    fn blas_type() -> (r: SparseType) {
        SparseType { code: TypeCode::Bool }
    }

    fn apply(kind: OpKind, a: bool, b: bool) -> (r: bool) {
        match kind {
            OpKind::First => a,
            OpKind::Second => b,
            OpKind::Lor | OpKind::Plus | OpKind::Max => a || b,
            OpKind::Land | OpKind::Times | OpKind::Min => a && b,
            OpKind::Lxor => a != b,
        }
    }
}

impl CanBool for bool {
    open spec fn spec_as_bool(v: bool) -> bool {
        v
    }

    fn as_bool(v: bool) -> (r: bool) {
        v
    }
}

/// `1` for true and `0` for false, as the logical operators yield on integers.
pub open spec fn bit_i8(b: bool) -> i8 {
    if b { 1 } else { 0 }
}

pub open spec fn bit_i32(b: bool) -> i32 {
    if b { 1 } else { 0 }
}

pub open spec fn bit_u64(b: bool) -> u64 {
    if b { 1 } else { 0 }
}

impl TypeEncoder for i8 {
    open spec fn type_code() -> TypeCode {
        TypeCode::Int8
    }

    open spec fn spec_apply(kind: OpKind, a: i8, b: i8) -> i8 {
        match kind {
            OpKind::First => a,
            OpKind::Second => b,
            OpKind::Lor => bit_i8(a != 0 || b != 0),
            OpKind::Land => bit_i8(a != 0 && b != 0),
            OpKind::Lxor => bit_i8((a != 0) != (b != 0)),
            OpKind::Plus => vstd::wrapping::i8_specs::wrapping_add(a, b),
            OpKind::Times => vstd::wrapping::i8_specs::wrapping_mul(a, b),
            OpKind::Min => if a <= b { a } else { b },
            OpKind::Max => if a >= b { a } else { b },
        }
    }

    fn blas_type() -> (r: SparseType) {
        SparseType { code: TypeCode::Int8 }
    }

    fn apply(kind: OpKind, a: i8, b: i8) -> (r: i8) {
        match kind {
            OpKind::First => a,
            OpKind::Second => b,
            OpKind::Lor => if a != 0 || b != 0 { 1 } else { 0 },
            OpKind::Land => if a != 0 && b != 0 { 1 } else { 0 },
            OpKind::Lxor => if (a != 0) != (b != 0) { 1 } else { 0 },
            OpKind::Plus => a.wrapping_add(b),
            OpKind::Times => a.wrapping_mul(b),
            OpKind::Min => if a <= b { a } else { b },
            OpKind::Max => if a >= b { a } else { b },
        }
    }
}

impl CanBool for i8 {
    open spec fn spec_as_bool(v: i8) -> bool {
        v != 0
    }

    fn as_bool(v: i8) -> (r: bool) {
        v != 0
    }
}

impl TypeEncoder for i32 {
    open spec fn type_code() -> TypeCode {
        TypeCode::Int32
    }

    open spec fn spec_apply(kind: OpKind, a: i32, b: i32) -> i32 {
        match kind {
            OpKind::First => a,
            OpKind::Second => b,
            OpKind::Lor => bit_i32(a != 0 || b != 0),
            OpKind::Land => bit_i32(a != 0 && b != 0),
            OpKind::Lxor => bit_i32((a != 0) != (b != 0)),
            OpKind::Plus => vstd::wrapping::i32_specs::wrapping_add(a, b),
            OpKind::Times => vstd::wrapping::i32_specs::wrapping_mul(a, b),
            OpKind::Min => if a <= b { a } else { b },
            OpKind::Max => if a >= b { a } else { b },
        }
    }

    fn blas_type() -> (r: SparseType) {
        SparseType { code: TypeCode::Int32 }
    }

    fn apply(kind: OpKind, a: i32, b: i32) -> (r: i32) {
        match kind {
            OpKind::First => a,
            OpKind::Second => b,
            OpKind::Lor => if a != 0 || b != 0 { 1 } else { 0 },
            OpKind::Land => if a != 0 && b != 0 { 1 } else { 0 },
            OpKind::Lxor => if (a != 0) != (b != 0) { 1 } else { 0 },
            OpKind::Plus => a.wrapping_add(b),
            OpKind::Times => a.wrapping_mul(b),
            OpKind::Min => if a <= b { a } else { b },
            OpKind::Max => if a >= b { a } else { b },
        }
    }
}

impl CanBool for i32 {
    open spec fn spec_as_bool(v: i32) -> bool {
        v != 0
    }

    fn as_bool(v: i32) -> (r: bool) {
        v != 0
    }
}

impl TypeEncoder for u64 {
    open spec fn type_code() -> TypeCode {
        TypeCode::UInt64
    }

    open spec fn spec_apply(kind: OpKind, a: u64, b: u64) -> u64 {
        match kind {
            OpKind::First => a,
            OpKind::Second => b,
            OpKind::Lor => bit_u64(a != 0 || b != 0),
            OpKind::Land => bit_u64(a != 0 && b != 0),
            OpKind::Lxor => bit_u64((a != 0) != (b != 0)),
            OpKind::Plus => vstd::wrapping::u64_specs::wrapping_add(a, b),
            OpKind::Times => vstd::wrapping::u64_specs::wrapping_mul(a, b),
            OpKind::Min => if a <= b { a } else { b },
            OpKind::Max => if a >= b { a } else { b },
        }
    }

    fn blas_type() -> (r: SparseType) {
        SparseType { code: TypeCode::UInt64 }
    }

    fn apply(kind: OpKind, a: u64, b: u64) -> (r: u64) {
        match kind {
            OpKind::First => a,
            OpKind::Second => b,
            OpKind::Lor => if a != 0 || b != 0 { 1 } else { 0 },
            OpKind::Land => if a != 0 && b != 0 { 1 } else { 0 },
            OpKind::Lxor => if (a != 0) != (b != 0) { 1 } else { 0 },
            OpKind::Plus => a.wrapping_add(b),
            OpKind::Times => a.wrapping_mul(b),
            OpKind::Min => if a <= b { a } else { b },
            OpKind::Max => if a >= b { a } else { b },
        }
    }
}

impl CanBool for u64 {
    open spec fn spec_as_bool(v: u64) -> bool {
        v != 0
    }

    fn as_bool(v: u64) -> (r: bool) {
        v != 0
    }
}

} // verus!
