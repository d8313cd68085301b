use vstd::prelude::*;
use crate::binops::BinaryOp;
use crate::types::{OpKind, TypeEncoder};

verus! {

/// An associative operator `T x T -> T` together with its identity. That the
/// identity is a two-sided identity of the operator is the builder's charge.
pub struct SparseMonoid<T> {
    op: BinaryOp<T, T, T>,
    identity: T,
}

impl<T> SparseMonoid<T> {
    pub closed spec fn spec_op(&self) -> OpKind {
        self.op.spec_kind()
    }

    pub closed spec fn spec_identity(&self) -> T {
        self.identity
    }
}

impl<T: Copy> Clone for SparseMonoid<T> {
    fn clone(&self) -> (r: Self)
        ensures
            r.spec_op() == self.spec_op(),
            r.spec_identity() == self.spec_identity(),
    {
        SparseMonoid { op: self.op, identity: self.identity }
    }
}

impl<T: Copy> Copy for SparseMonoid<T> {}

impl<T: MonoidBuilder<T>> SparseMonoid<T> {
    /// The monoid of `bin_op` with identity `default`.
    pub fn new(bin_op: BinaryOp<T, T, T>, default: T) -> (r: SparseMonoid<T>)
        ensures
            r.spec_op() == bin_op.spec_kind(),
            r.spec_identity() == default,
    {
        T::new_monoid(bin_op, default)
    }
}

impl<T: TypeEncoder> SparseMonoid<T> {
    /// The monoid's operator.
    pub fn op(&self) -> (r: BinaryOp<T, T, T>)
        ensures
            r.spec_kind() == self.spec_op(),
    {
        self.op
    }

    pub fn identity(&self) -> (r: T)
        ensures
            r == self.spec_identity(),
    {
        self.identity
    }
}

/// Element types for which a monoid can be built.
pub trait MonoidBuilder<T> {
    fn new_monoid(bin_op: BinaryOp<T, T, T>, default: T) -> (r: SparseMonoid<T>)
        ensures
            r.spec_op() == bin_op.spec_kind(),
            r.spec_identity() == default,
    ;
}

impl<T: TypeEncoder> MonoidBuilder<T> for T {
    fn new_monoid(bin_op: BinaryOp<T, T, T>, default: T) -> (r: SparseMonoid<T>) {
        SparseMonoid { op: bin_op, identity: default }
    }
}

/// The arithmetic of a generalized product: an additive monoid over `C` and a
/// multiplicative operator `A x B -> C`. It copies what it needs from the
/// monoid at construction, so the two live independently.
pub struct Semiring<A, B, C> {
    add: BinaryOp<C, C, C>,
    zero: C,
    multiply: BinaryOp<A, B, C>,
}

impl<A, B, C> Semiring<A, B, C> {
    pub closed spec fn spec_add(&self) -> OpKind {
        self.add.spec_kind()
    }

    pub closed spec fn spec_zero(&self) -> C {
        self.zero
    }

    pub closed spec fn spec_multiply(&self) -> OpKind {
        self.multiply.spec_kind()
    }
}

impl<A, B, C: Copy> Semiring<A, B, C> {
    /// The semiring with additive monoid `add` and multiplicative operator `multiply`.
    pub fn new(add: SparseMonoid<C>, multiply: BinaryOp<A, B, C>) -> (r: Semiring<A, B, C>)
        ensures
            r.spec_add() == add.spec_op(),
            r.spec_zero() == add.spec_identity(),
            r.spec_multiply() == multiply.spec_kind(),
    {
        Semiring { add: BinaryOp::of_kind(add.op.kind()), zero: add.identity, multiply }
    }

    pub fn add_op(&self) -> (r: BinaryOp<C, C, C>)
        ensures
            r.spec_kind() == self.spec_add(),
    {
        self.add
    }

    pub fn multiply_op(&self) -> (r: BinaryOp<A, B, C>)
        ensures
            r.spec_kind() == self.spec_multiply(),
    {
        self.multiply
    }
}

impl<A, B, C: Copy> Clone for Semiring<A, B, C> {
    fn clone(&self) -> (r: Self)
        ensures
            r.spec_add() == self.spec_add(),
            r.spec_zero() == self.spec_zero(),
            r.spec_multiply() == self.spec_multiply(),
    {
        Semiring { add: self.add, zero: self.zero, multiply: self.multiply }
    }
}

impl<A, B, C: Copy> Copy for Semiring<A, B, C> {}

} // verus!
