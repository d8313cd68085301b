use vstd::prelude::*;
use crate::binops::BinaryOp;
use crate::desc::Descriptor;
use crate::matrix::{entry_of, SparseMatrix};
use crate::matrix_algebra::{
    accum_kind,
    accumulate,
    accumulate_at,
    dims,
    dot,
    mask_view,
    mxm_result,
    operand_at,
    written,
};
use crate::monoid::{Semiring, SparseMonoid};
use crate::types::{CanBool, OpKind, TypeEncoder};

verus! {

/// The value stored at index `i` of an index map, or `None` where there is none.
pub open spec fn value_at<T>(v: Map<u64, T>, i: u64) -> Option<T> {
    if v.contains_key(i) {
        Some(v[i])
    } else {
        None
    }
}

/// Row `0` of a coordinate map, as an index map.
pub open spec fn row_of<T>(m: Map<(u64, u64), T>) -> Map<u64, T> {
    Map::new(|i: u64| m.contains_key((0, i)), |i: u64| m[(0, i)])
}

/// An index map laid out as row `0` of a coordinate map.
pub open spec fn as_row<T>(v: Map<u64, T>) -> Map<(u64, u64), T> {
    Map::new(|k: (u64, u64)| k.0 == 0 && v.contains_key(k.1), |k: (u64, u64)| v[k.1])
}

/// The map that holds `f(i)` at each `i < size` where `f` gives a value.
pub open spec fn tabulate_vec<T>(size: u64, f: spec_fn(u64) -> Option<T>) -> Map<u64, T> {
    Map::new(|i: u64| i < size && f(i).is_some(), |i: u64| f(i).unwrap())
}

/// The generalized dot product of vector `u` with column `j` of `A`: `u[k] * A[k, j]`
/// summed under `add` over the `k < n` at which both hold a value, in increasing
/// order of `k`; `None` when there is no such `k`.
pub open spec fn vdot<T: TypeEncoder>(
    add: OpKind,
    mul: OpKind,
    u: Map<u64, T>,
    a: Map<(u64, u64), T>,
    ta: bool,
    j: u64,
    n: nat,
) -> Option<T>
    decreases n,
{
    if n == 0 {
        None
    } else {
        let prev = vdot(add, mul, u, a, ta, j, (n - 1) as nat);
        let k = (n - 1) as u64;
        match (value_at(u, k), operand_at(a, ta, k, j)) {
            (Some(x), Some(y)) => {
                let p = T::spec_apply(mul, x, y);
                match prev {
                    Some(s) => Some(T::spec_apply(add, s, p)),
                    None => Some(p),
                }
            },
            _ => prev,
        }
    }
}

/// The contents of an optional vector mask.
pub open spec fn vmask_view<M>(mask: Option<&SparseVector<M>>) -> Option<Map<u64, M>> {
    match mask {
        Some(m) => Some(m@),
        None => None,
    }
}

/// Whether a vector mask lets an operation write at index `i`.
pub open spec fn vmask_allows<M: CanBool>(mask: Option<Map<u64, M>>, complement: bool, i: u64) -> bool {
    let base = match mask {
        Some(m) => m.contains_key(i) && M::spec_as_bool(m[i]),
        None => true,
    };
    base != complement
}

/// The whole of `w` after `w<mask> (accum)= u (+.*) A` under `desc`, on a
/// vector of length `size`, where `inner` is the length of `u`.
pub open spec fn vxm_result<T: TypeEncoder, M: CanBool>(
    w: Map<u64, T>,
    size: u64,
    mask: Option<Map<u64, M>>,
    accum: Option<OpKind>,
    u: Map<u64, T>,
    a: Map<(u64, u64), T>,
    add: OpKind,
    mul: OpKind,
    desc: Descriptor,
    inner: u64,
) -> Map<u64, T> {
    tabulate_vec(
        size,
        |j: u64|
            written(
                value_at(w, j),
                accumulate(accum, value_at(w, j), vdot(add, mul, u, a, desc.transpose1, j, inner as nat)),
                vmask_allows(mask, desc.complement, j),
                desc.replace,
            ),
    )
}

/// The whole of `w` after `w<mask> (accum)= scalar` on a vector of length `size`.
pub open spec fn assign_result<T: TypeEncoder, M: CanBool>(
    w: Map<u64, T>,
    size: u64,
    mask: Option<Map<u64, M>>,
    accum: Option<OpKind>,
    scalar: T,
    desc: Descriptor,
) -> Map<u64, T> {
    tabulate_vec(
        size,
        |j: u64|
            written(
                value_at(w, j),
                accumulate(accum, value_at(w, j), Some(scalar)),
                vmask_allows(mask, desc.complement, j),
                desc.replace,
            ),
    )
}

/// The fold of the values of `v` at the indices below `n`, in increasing order,
/// under `op`, starting from `identity`.
pub open spec fn reduce_upto<T: TypeEncoder>(op: OpKind, identity: T, v: Map<u64, T>, n: nat) -> T
    decreases n,
{
    if n == 0 {
        identity
    } else {
        let prev = reduce_upto(op, identity, v, (n - 1) as nat);
        let k = (n - 1) as u64;
        if v.contains_key(k) {
            T::spec_apply(op, prev, v[k])
        } else {
            prev
        }
    }
}

/// The product over a row laid out as a matrix is the vector product.
proof fn lemma_dot_row<T: TypeEncoder>(
    add: OpKind,
    mul: OpKind,
    u: Map<u64, T>,
    a: Map<(u64, u64), T>,
    ta: bool,
    j: u64,
    n: nat,
)
    ensures
        dot(add, mul, as_row(u), false, a, ta, 0, j, n) == vdot(add, mul, u, a, ta, j, n),
    decreases n,
{
    if n > 0 {
        lemma_dot_row(add, mul, u, a, ta, j, (n - 1) as nat);
    }
}

/// No mask: every index may be written.
pub fn empty_mask<B>() -> (r: Option<&'static SparseVector<B>>)
    ensures
        r.is_none(),
{
    None
}

/// A sparse vector: a length and a set of stored values at unique indices.
pub struct SparseVector<T> {
    inner: SparseMatrix<T>,
}

impl<T> View for SparseVector<T> {
    type V = Map<u64, T>;

    closed spec fn view(&self) -> Map<u64, T> {
        row_of(self.inner@)
    }
}

impl<T> SparseVector<T> {
    pub closed spec fn spec_size(&self) -> u64 {
        self.inner.spec_cols()
    }

    /// Stored as a well-formed matrix of one row.
    pub closed spec fn wf(&self) -> bool {
        self.inner.wf() && self.inner.spec_rows() == 1
    }

    proof fn lemma_layout(&self)
        requires
            self.wf(),
        ensures
            self.inner@ == as_row(self@),
            self.inner@.dom().finite(),
            forall|i: u64| #[trigger] self@.contains_key(i) ==> i < self.spec_size(),
    {
        self.inner.lemma_within_shape();
        assert(self.inner@ =~= as_row(self@));
    }

    /// The length.
    pub fn size(&self) -> (r: u64)
        ensures
            r == self.spec_size(),
    {
        self.inner.cols()
    }

    /// The number of stored values.
    pub fn nvals(&self) -> (r: u64)
        requires
            self.wf(),
        ensures
            r == self@.len(),
    {
        proof {
            self.lemma_layout();
            self.inner.lemma_within_shape();
            let f = |k: (u64, u64)| k.1;
            assert(self.inner@.dom().map(f) =~= self@.dom());
            assert(vstd::relations::injective_on(f, self.inner@.dom()));
            vstd::set_lib::lemma_map_size(self.inner@.dom(), self@.dom(), f);
        }
        self.inner.nvals()
    }
}

impl<T: Copy> SparseVector<T> {
    /// The value stored at index `i`, or `None` where there is none.
    pub fn get(&self, i: u64) -> (r: Option<T>)
        requires
            self.wf(),
            i < self.spec_size(),
        ensures
            r == value_at(self@, i),
    {
        self.inner.get(0, i)
    }
}

impl<T: TypeEncoder> SparseVector<T> {
    /// An all-absent vector of length `n`.
    pub fn empty(n: u64) -> (r: SparseVector<T>)
        ensures
            r.wf(),
            r.spec_size() == n,
            r@ == Map::<u64, T>::empty(),
    {
        let r = SparseVector { inner: SparseMatrix::empty((1, n)) };
        assert(r@ =~= Map::<u64, T>::empty());
        r
    }

    /// Stores `val` at index `i`, replacing any value already there.
    pub fn insert(&mut self, i: u64, val: T)
        requires
            old(self).wf(),
            i < old(self).spec_size(),
        ensures
            final(self).wf(),
            final(self).spec_size() == old(self).spec_size(),
            final(self)@ == old(self)@.insert(i, val),
    {
        let ghost before = self@;
        self.inner.insert(0, i, val);
        assert(self@ =~= before.insert(i, val));
    }

    /// `self<mask> (accum)= scalar`: the scalar, merged through `accum` with
    /// what was there, at every index below `size` that the mask allows;
    /// elsewhere the old value, or nothing when `desc` asks to replace.
    pub fn assign_all<M: CanBool>(
        &mut self,
        mask: Option<&SparseVector<M>>,
        accum: Option<&BinaryOp<T, T, T>>,
        scalar: T,
        size: u64,
        desc: &Descriptor,
    )
        requires
            old(self).wf(),
            size == old(self).spec_size(),
            match mask {
                Some(m) => m.wf() && m.spec_size() == size,
                None => true,
            },
        ensures
            final(self).wf(),
            final(self).spec_size() == size,
            final(self)@ == assign_result(
                old(self)@,
                size,
                vmask_view(mask),
                accum_kind(accum),
                scalar,
                *desc,
            ),
    {
        let ghost w0 = self@;
        let ghost f = |j: u64|
            written(
                value_at(w0, j),
                accumulate(accum_kind(accum), value_at(w0, j), Some(scalar)),
                vmask_allows(vmask_view(mask), desc.complement, j),
                desc.replace,
            );
        let mut out = SparseVector::<T>::empty(size);
        let mut j: u64 = 0;
        while j < size
            invariant
                self.wf(),
                out.wf(),
                self@ == w0,
                self.spec_size() == size,
                out.spec_size() == size,
                match mask {
                    Some(m) => m.wf() && m.spec_size() == size,
                    None => true,
                },
                f == (|j: u64|
                    written(
                        value_at(w0, j),
                        accumulate(accum_kind(accum), value_at(w0, j), Some(scalar)),
                        vmask_allows(vmask_view(mask), desc.complement, j),
                        desc.replace,
                    )),
                j <= size,
                out@ == tabulate_vec(j, f),
            decreases size - j,
        {
            let c = self.get(j);
            let z = accumulate_at(accum, c, Some(scalar));
            let allowed = match mask {
                Some(m) => match m.get(j) {
                    Some(v) => M::as_bool(v),
                    None => false,
                },
                None => true,
            } != desc.complement;
            let w = if allowed {
                z
            } else if desc.replace {
                None
            } else {
                c
            };
            assert(w == f(j));
            match w {
                Some(v) => {
                    out.insert(j, v);
                },
                None => {},
            }
            assert(out@ =~= tabulate_vec((j + 1) as u64, f));
            j = j + 1;
        }
        *self = out;
    }

    /// `self<mask> (accum)= self (+.*) A` under `desc`: the vector times the
    /// matrix, `A` read through `desc`'s second transpose flag, written as
    /// `assign_all` writes.
    pub fn vxm<M: CanBool>(
        &mut self,
        mask: Option<&SparseVector<M>>,
        accum: Option<&BinaryOp<T, T, T>>,
        a: &SparseMatrix<T>,
        s_ring: &Semiring<T, T, T>,
        desc: &Descriptor,
    )
        requires
            old(self).wf(),
            a.wf(),
            dims(a, desc.transpose1).0 == old(self).spec_size(),
            dims(a, desc.transpose1).1 == old(self).spec_size(),
            match mask {
                Some(m) => m.wf() && m.spec_size() == old(self).spec_size(),
                None => true,
            },
        ensures
            final(self).wf(),
            final(self).spec_size() == old(self).spec_size(),
            final(self)@ == vxm_result(
                old(self)@,
                old(self).spec_size(),
                vmask_view(mask),
                accum_kind(accum),
                old(self)@,
                a@,
                s_ring.spec_add(),
                s_ring.spec_multiply(),
                *desc,
                old(self).spec_size(),
            ),
    {
        let ghost w0 = self@;
        let n = self.size();
        let u = self.inner.duplicate();
        let row_desc = Descriptor {
            complement: desc.complement,
            replace: desc.replace,
            transpose0: false,
            transpose1: desc.transpose1,
        };
        let row_mask = match mask {
            Some(m) => Some(&m.inner),
            None => None,
        };
        proof {
            self.lemma_layout();
            match mask {
                Some(m) => {
                    m.lemma_layout();
                },
                None => {},
            }
        }
        self.inner.mxm_into(row_mask, accum, &u, a, s_ring, &row_desc);
        proof {
            let big = mxm_result(
                as_row(w0),
                1,
                n,
                mask_view(row_mask),
                accum_kind(accum),
                as_row(w0),
                a@,
                s_ring.spec_add(),
                s_ring.spec_multiply(),
                row_desc,
                n,
            );
            let small = vxm_result(
                w0,
                n,
                vmask_view(mask),
                accum_kind(accum),
                w0,
                a@,
                s_ring.spec_add(),
                s_ring.spec_multiply(),
                *desc,
                n,
            );
            assert forall|j: u64| #[trigger] row_of(big).contains_key(j) == small.contains_key(j) && (
            small.contains_key(j) ==> row_of(big)[j] == small[j]) by {
                lemma_dot_row(
                    s_ring.spec_add(),
                    s_ring.spec_multiply(),
                    w0,
                    a@,
                    desc.transpose1,
                    j,
                    n as nat,
                );
                assert(entry_of(as_row(w0), 0, j) == value_at(w0, j));
            }
            assert(row_of(big) =~= small);
        }
    }

    /// Folds every stored value, in increasing order of index, under the
    /// monoid's operator starting from its identity; the result goes to `out`,
    /// merged through `accum` with what `out` held where `accum` is given.
    pub fn reduce(
        &self,
        out: &mut T,
        accum: Option<&BinaryOp<T, T, T>>,
        monoid: &SparseMonoid<T>,
        desc: &Descriptor,
    )
        requires
            self.wf(),
        ensures
            *final(out) == match accum_kind(accum) {
                None => reduce_upto(monoid.spec_op(), monoid.spec_identity(), self@, self.spec_size() as nat),
                Some(op) => T::spec_apply(
                    op,
                    *old(out),
                    reduce_upto(monoid.spec_op(), monoid.spec_identity(), self@, self.spec_size() as nat),
                ),
            },
    {
        let op = monoid.op();
        let n = self.size();
        let mut acc = monoid.identity();
        let mut k: u64 = 0;
        while k < n
            invariant
                self.wf(),
                n == self.spec_size(),
                op.spec_kind() == monoid.spec_op(),
                k <= n,
                acc == reduce_upto(monoid.spec_op(), monoid.spec_identity(), self@, k as nat),
            decreases n - k,
        {
            match self.get(k) {
                Some(x) => {
                    acc = op.call(acc, x);
                },
                None => {},
            }
            k = k + 1;
        }
        match accum {
            Some(f) => {
                *out = f.call(*out, acc);
            },
            None => {
                *out = acc;
            },
        }
    }
}

} // verus!
