use vstd::prelude::*;
use crate::types::{OpKind, TypeEncoder};
use core::marker::PhantomData;

verus! {

/// A typed binary operator `A x B -> C`, named by its kind. It holds no data
/// and may be copied and shared freely.
pub struct BinaryOp<A, B, C> {
    kind: OpKind,
    _types: PhantomData<(A, B, C)>,
}

impl<A, B, C> Clone for BinaryOp<A, B, C> {
    fn clone(&self) -> (r: Self)
        ensures
            r.spec_kind() == self.spec_kind(),
    {
        BinaryOp { kind: self.kind, _types: PhantomData }
    }
}

impl<A, B, C> Copy for BinaryOp<A, B, C> {}

impl<A, B, C> BinaryOp<A, B, C> {
    pub closed spec fn spec_kind(&self) -> OpKind {
        self.kind
    }

    pub fn kind(&self) -> (r: OpKind)
        ensures
            r == self.spec_kind(),
    {
        self.kind
    }

    /// The operator of the given kind.
    pub fn of_kind(kind: OpKind) -> (r: Self)
        ensures
            r.spec_kind() == kind,
    {
        BinaryOp { kind, _types: PhantomData }
    }
}

impl<T: TypeEncoder> BinaryOp<T, T, T> {
    /// What this operator computes from `a` and `b`.
    pub open spec fn spec_call(&self, a: T, b: T) -> T {
        T::spec_apply(self.spec_kind(), a, b)
    }

    pub fn call(&self, a: T, b: T) -> (r: T)
        ensures
            r == self.spec_call(a, b),
    {
        T::apply(self.kind, a, b)
    }

    pub fn first() -> (r: Self)
        ensures
            r.spec_kind() == OpKind::First,
    {
        Self::of_kind(OpKind::First)
    }

    pub fn second() -> (r: Self)
        ensures
            r.spec_kind() == OpKind::Second,
    {
        Self::of_kind(OpKind::Second)
    }

    pub fn lor() -> (r: Self)
        ensures
            r.spec_kind() == OpKind::Lor,
    {
        Self::of_kind(OpKind::Lor)
    }

    pub fn land() -> (r: Self)
        ensures
            r.spec_kind() == OpKind::Land,
    {
        Self::of_kind(OpKind::Land)
    }

    pub fn lxor() -> (r: Self)
        ensures
            r.spec_kind() == OpKind::Lxor,
    {
        Self::of_kind(OpKind::Lxor)
    }

    pub fn plus() -> (r: Self)
        ensures
            r.spec_kind() == OpKind::Plus,
    {
        Self::of_kind(OpKind::Plus)
    }

    pub fn times() -> (r: Self)
        ensures
            r.spec_kind() == OpKind::Times,
    {
        Self::of_kind(OpKind::Times)
    }

    pub fn min() -> (r: Self)
        ensures
            r.spec_kind() == OpKind::Min,
    {
        Self::of_kind(OpKind::Min)
    }

    pub fn max() -> (r: Self)
        ensures
            r.spec_kind() == OpKind::Max,
    {
        Self::of_kind(OpKind::Max)
    }
}

} // verus!
