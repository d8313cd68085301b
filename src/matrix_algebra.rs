use vstd::prelude::*;
use crate::binops::BinaryOp;
use crate::desc::Descriptor;
use crate::matrix::{entry_of, SparseMatrix};
use crate::monoid::{Semiring, SparseMonoid};
use crate::types::{CanBool, OpKind, TypeEncoder};

verus! {

/// The map that holds `f(i, j)` at each `(i, j)` of a `rows` by `cols` shape
/// where `f` gives a value, and nothing elsewhere.
pub open spec fn tabulate<T>(rows: u64, cols: u64, f: spec_fn(u64, u64) -> Option<T>) -> Map<
    (u64, u64),
    T,
> {
    Map::new(
        |k: (u64, u64)| k.0 < rows && k.1 < cols && f(k.0, k.1).is_some(),
        |k: (u64, u64)| f(k.0, k.1).unwrap(),
    )
}

/// `tabulate` over the coordinates that come before `(i, j)` in row-major order.
pub open spec fn tabulate_before<T>(
    rows: u64,
    cols: u64,
    f: spec_fn(u64, u64) -> Option<T>,
    i: u64,
    j: u64,
) -> Map<(u64, u64), T> {
    Map::new(
        |k: (u64, u64)|
            k.0 < rows && k.1 < cols && (k.0 < i || (k.0 == i && k.1 < j)) && f(k.0, k.1).is_some(),
        |k: (u64, u64)| f(k.0, k.1).unwrap(),
    )
}

/// The value at `(i, j)` of `m`, read through a transpose when `transpose` is set.
pub open spec fn operand_at<T>(m: Map<(u64, u64), T>, transpose: bool, i: u64, j: u64) -> Option<
    T,
> {
    if transpose {
        entry_of(m, j, i)
    } else {
        entry_of(m, i, j)
    }
}

/// The shape of a matrix, read through a transpose when `transpose` is set.
pub open spec fn dims<T>(m: &SparseMatrix<T>, transpose: bool) -> (u64, u64) {
    if transpose {
        (m.spec_cols(), m.spec_rows())
    } else {
        (m.spec_rows(), m.spec_cols())
    }
}

/// The generalized dot product `A[i, k] * B[k, j]` summed under `add` over the
/// `k < n` at which both operands hold a value, in increasing order of `k`;
/// `None` when there is no such `k`.
pub open spec fn dot<T: TypeEncoder>(
    add: OpKind,
    mul: OpKind,
    a: Map<(u64, u64), T>,
    ta: bool,
    b: Map<(u64, u64), T>,
    tb: bool,
    i: u64,
    j: u64,
    n: nat,
) -> Option<T>
    decreases n,
{
    if n == 0 {
        None
    } else {
        let prev = dot(add, mul, a, ta, b, tb, i, j, (n - 1) as nat);
        let k = (n - 1) as u64;
        match (operand_at(a, ta, i, k), operand_at(b, tb, k, j)) {
            (Some(x), Some(y)) => {
                let p = T::spec_apply(mul, x, y);
                match prev {
                    Some(s) => Some(T::spec_apply(add, s, p)),
                    None => Some(p),
                }
            },
            _ => prev,
        }
    }
}

/// The contents of an optional mask.
pub open spec fn mask_view<M>(mask: Option<&SparseMatrix<M>>) -> Option<Map<(u64, u64), M>> {
    match mask {
        Some(m) => Some(m@),
        None => None,
    }
}

/// The kind of an optional accumulator.
pub open spec fn accum_kind<T>(accum: Option<&BinaryOp<T, T, T>>) -> Option<OpKind> {
    match accum {
        Some(op) => Some(op.spec_kind()),
        None => None,
    }
}

/// Whether the mask lets an operation write at `(i, j)`: without a mask every
/// coordinate is allowed; with one, those where it holds a true-like value.
/// A complement inverts the answer.
pub open spec fn mask_allows<M: CanBool>(
    mask: Option<Map<(u64, u64), M>>,
    complement: bool,
    i: u64,
    j: u64,
) -> bool {
    let base = match mask {
        Some(m) => m.contains_key((i, j)) && M::spec_as_bool(m[(i, j)]),
        None => true,
    };
    base != complement
}

/// A computed value `t` merged with the value `c` already present, through the
/// accumulator where there is one; without one, `t` stands alone.
pub open spec fn accumulate<T: TypeEncoder>(accum: Option<OpKind>, c: Option<T>, t: Option<T>) -> Option<T> {
    match accum {
        None => t,
        Some(op) => match (c, t) {
            (Some(x), Some(y)) => Some(T::spec_apply(op, x, y)),
            (Some(x), None) => Some(x),
            (None, y) => y,
        },
    }
}

/// What an output coordinate holds after a write of `z`: `z` where the mask
/// allows; elsewhere nothing under replace, and the old value `c` otherwise.
pub open spec fn written<T>(c: Option<T>, z: Option<T>, allowed: bool, replace: bool) -> Option<T> {
    if allowed {
        z
    } else if replace {
        None
    } else {
        c
    }
}

/// The value at `(i, j)` of `C` after `C<mask> (accum)= A (+.*) B` under `desc`,
/// where `inner` is the shared dimension.
pub open spec fn mxm_cell<T: TypeEncoder, M: CanBool>(
    c: Map<(u64, u64), T>,
    mask: Option<Map<(u64, u64), M>>,
    accum: Option<OpKind>,
    a: Map<(u64, u64), T>,
    b: Map<(u64, u64), T>,
    add: OpKind,
    mul: OpKind,
    desc: Descriptor,
    inner: u64,
    i: u64,
    j: u64,
) -> Option<T> {
    let t = dot(add, mul, a, desc.transpose0, b, desc.transpose1, i, j, inner as nat);
    written(
        entry_of(c, i, j),
        accumulate(accum, entry_of(c, i, j), t),
        mask_allows(mask, desc.complement, i, j),
        desc.replace,
    )
}

/// `mxm_cell` as a function of the coordinate.
pub open spec fn mxm_cells<T: TypeEncoder, M: CanBool>(
    c: Map<(u64, u64), T>,
    mask: Option<Map<(u64, u64), M>>,
    accum: Option<OpKind>,
    a: Map<(u64, u64), T>,
    b: Map<(u64, u64), T>,
    add: OpKind,
    mul: OpKind,
    desc: Descriptor,
    inner: u64,
) -> spec_fn(u64, u64) -> Option<T> {
    |i: u64, j: u64| mxm_cell(c, mask, accum, a, b, add, mul, desc, inner, i, j)
}

/// The whole of `C` after `C<mask> (accum)= A (+.*) B` on a `rows` by `cols` output.
pub open spec fn mxm_result<T: TypeEncoder, M: CanBool>(
    c: Map<(u64, u64), T>,
    rows: u64,
    cols: u64,
    mask: Option<Map<(u64, u64), M>>,
    accum: Option<OpKind>,
    a: Map<(u64, u64), T>,
    b: Map<(u64, u64), T>,
    add: OpKind,
    mul: OpKind,
    desc: Descriptor,
    inner: u64,
) -> Map<(u64, u64), T> {
    tabulate(rows, cols, mxm_cells(c, mask, accum, a, b, add, mul, desc, inner))
}

/// The plain product `A (+.*) B`, with no mask, accumulator or prior output.
pub open spec fn product<T: TypeEncoder>(
    rows: u64,
    cols: u64,
    a: Map<(u64, u64), T>,
    b: Map<(u64, u64), T>,
    add: OpKind,
    mul: OpKind,
    ta: bool,
    tb: bool,
    inner: u64,
) -> Map<(u64, u64), T> {
    tabulate(rows, cols, |i: u64, j: u64| dot(add, mul, a, ta, b, tb, i, j, inner as nat))
}

/// The shape conditions of `C<mask> = A (+.*) B`: inner dimensions agree, and
/// the output and the mask have the product's shape.
pub open spec fn mxm_shapes_agree<T, M>(
    c: &SparseMatrix<T>,
    mask: Option<&SparseMatrix<M>>,
    a: &SparseMatrix<T>,
    b: &SparseMatrix<T>,
    desc: Descriptor,
) -> bool {
    &&& dims(a, desc.transpose0).1 == dims(b, desc.transpose1).0
    &&& dims(a, desc.transpose0).0 == c.spec_rows()
    &&& dims(b, desc.transpose1).1 == c.spec_cols()
    &&& match mask {
        Some(m) => m.wf() && m.spec_rows() == c.spec_rows() && m.spec_cols() == c.spec_cols(),
        None => true,
    }
}

/// Reads an operand at `(i, j)` through an optional transpose.
fn read_operand<T: TypeEncoder>(m: &SparseMatrix<T>, transpose: bool, i: u64, j: u64) -> (r: Option<T>)
    requires
        m.wf(),
        i < dims(m, transpose).0,
        j < dims(m, transpose).1,
    ensures
        r == operand_at(m@, transpose, i, j),
{
    if transpose {
        m.get(j, i)
    } else {
        m.get(i, j)
    }
}

/// Whether an optional mask lets an operation write at `(i, j)`.
pub fn mask_allows_at<M: CanBool>(mask: Option<&SparseMatrix<M>>, complement: bool, i: u64, j: u64) -> (r: bool)
    requires
        match mask {
            Some(m) => m.wf() && i < m.spec_rows() && j < m.spec_cols(),
            None => true,
        },
    ensures
        r == mask_allows(mask_view(mask), complement, i, j),
{
    let base = match mask {
        Some(m) => match m.get(i, j) {
            Some(v) => M::as_bool(v),
            None => false,
        },
        None => true,
    };
    base != complement
}

/// Merges a computed value with the value already present.
pub fn accumulate_at<T: TypeEncoder>(accum: Option<&BinaryOp<T, T, T>>, c: Option<T>, t: Option<T>) -> (r: Option<T>)
    ensures
        r == accumulate(accum_kind(accum), c, t),
{
    match accum {
        None => t,
        Some(op) => match (c, t) {
            (Some(x), Some(y)) => Some(op.call(x, y)),
            (Some(x), None) => Some(x),
            (None, y) => y,
        },
    }
}

/// The generalized dot product of row `i` of A and column `j` of B.
fn dot_at<T: TypeEncoder>(
    a: &SparseMatrix<T>,
    b: &SparseMatrix<T>,
    s_ring: &Semiring<T, T, T>,
    desc: &Descriptor,
    inner: u64,
    i: u64,
    j: u64,
) -> (r: Option<T>)
    requires
        a.wf(),
        b.wf(),
        dims(a, desc.transpose0).1 == inner,
        dims(b, desc.transpose1).0 == inner,
        i < dims(a, desc.transpose0).0,
        j < dims(b, desc.transpose1).1,
    ensures
        r == dot(
            s_ring.spec_add(),
            s_ring.spec_multiply(),
            a@,
            desc.transpose0,
            b@,
            desc.transpose1,
            i,
            j,
            inner as nat,
        ),
{
    let add = s_ring.add_op();
    let mul = s_ring.multiply_op();
    let mut acc: Option<T> = None;
    let mut k: u64 = 0;
    while k < inner
        invariant
            a.wf(),
            b.wf(),
            dims(a, desc.transpose0).1 == inner,
            dims(b, desc.transpose1).0 == inner,
            i < dims(a, desc.transpose0).0,
            j < dims(b, desc.transpose1).1,
            add.spec_kind() == s_ring.spec_add(),
            mul.spec_kind() == s_ring.spec_multiply(),
            k <= inner,
            acc == dot(
                s_ring.spec_add(),
                s_ring.spec_multiply(),
                a@,
                desc.transpose0,
                b@,
                desc.transpose1,
                i,
                j,
                k as nat,
            ),
        decreases inner - k,
    {
        let x = read_operand(a, desc.transpose0, i, k);
        let y = read_operand(b, desc.transpose1, k, j);
        match (x, y) {
            (Some(x), Some(y)) => {
                let p = mul.call(x, y);
                acc = match acc {
                    Some(s) => Some(add.call(s, p)),
                    None => Some(p),
                };
            },
            _ => {},
        }
        k = k + 1;
    }
    acc
}

impl<T: TypeEncoder> SparseMatrix<T> {
    /// `self<mask> (accum)= A (+.*) B` under `desc`: at each coordinate the mask
    /// allows, the product merged through `accum` with what was there (or the
    /// product alone, without `accum`); elsewhere the old value, or nothing
    /// when `desc` asks to replace.
    pub fn mxm_into<M: CanBool>(
        &mut self,
        mask: Option<&SparseMatrix<M>>,
        accum: Option<&BinaryOp<T, T, T>>,
        a: &SparseMatrix<T>,
        b: &SparseMatrix<T>,
        s_ring: &Semiring<T, T, T>,
        desc: &Descriptor,
    )
        requires
            old(self).wf(),
            a.wf(),
            b.wf(),
            mxm_shapes_agree(old(self), mask, a, b, *desc),
        ensures
            final(self).wf(),
            final(self).spec_rows() == old(self).spec_rows(),
            final(self).spec_cols() == old(self).spec_cols(),
            final(self).spec_type().code == T::type_code(),
            final(self)@ == mxm_result(
                old(self)@,
                old(self).spec_rows(),
                old(self).spec_cols(),
                mask_view(mask),
                accum_kind(accum),
                a@,
                b@,
                s_ring.spec_add(),
                s_ring.spec_multiply(),
                *desc,
                dims(a, desc.transpose0).1,
            ),
    {
        let rows = self.rows();
        let cols = self.cols();
        let inner = if desc.transpose0 {
            a.rows()
        } else {
            a.cols()
        };
        let ghost c0 = self@;
        let ghost f = mxm_cells(
            c0,
            mask_view(mask),
            accum_kind(accum),
            a@,
            b@,
            s_ring.spec_add(),
            s_ring.spec_multiply(),
            *desc,
            inner,
        );
        let mut out = SparseMatrix::<T>::empty((rows, cols));
        let mut i: u64 = 0;
        while i < rows
            invariant
                self.wf(),
                a.wf(),
                b.wf(),
                out.wf(),
                self@ == c0,
                self.spec_rows() == rows,
                self.spec_cols() == cols,
                out.spec_rows() == rows,
                out.spec_cols() == cols,
                out.spec_type().code == T::type_code(),
                mxm_shapes_agree(self, mask, a, b, *desc),
                inner == dims(a, desc.transpose0).1,
                f == mxm_cells(
                    c0,
                    mask_view(mask),
                    accum_kind(accum),
                    a@,
                    b@,
                    s_ring.spec_add(),
                    s_ring.spec_multiply(),
                    *desc,
                    inner,
                ),
                i <= rows,
                out@ == tabulate_before(rows, cols, f, i, 0),
            decreases rows - i,
        {
            let mut j: u64 = 0;
            while j < cols
                invariant
                    self.wf(),
                    a.wf(),
                    b.wf(),
                    out.wf(),
                    self@ == c0,
                    self.spec_rows() == rows,
                    self.spec_cols() == cols,
                    out.spec_rows() == rows,
                    out.spec_cols() == cols,
                    out.spec_type().code == T::type_code(),
                    mxm_shapes_agree(self, mask, a, b, *desc),
                    inner == dims(a, desc.transpose0).1,
                    f == mxm_cells(
                        c0,
                        mask_view(mask),
                        accum_kind(accum),
                        a@,
                        b@,
                        s_ring.spec_add(),
                        s_ring.spec_multiply(),
                        *desc,
                        inner,
                    ),
                f == mxm_cells(
                    c0,
                    mask_view(mask),
                    accum_kind(accum),
                    a@,
                    b@,
                    s_ring.spec_add(),
                    s_ring.spec_multiply(),
                    *desc,
                    inner,
                ),
                    i < rows,
                    j <= cols,
                    out@ == tabulate_before(rows, cols, f, i, j),
                decreases cols - j,
            {
                let c = self.get(i, j);
                let t = dot_at(a, b, s_ring, desc, inner, i, j);
                let z = accumulate_at(accum, c, t);
                let allowed = mask_allows_at(mask, desc.complement, i, j);
                let w = if allowed {
                    z
                } else if desc.replace {
                    None
                } else {
                    c
                };
                assert(w == f(i, j));
                let ghost before = out@;
                match w {
                    Some(v) => {
                        out.insert(i, j, v);
                    },
                    None => {},
                }
                assert(out@ =~= tabulate_before(rows, cols, f, i, (j + 1) as u64));
                j = j + 1;
            }
            assert(tabulate_before(rows, cols, f, i, cols) =~= tabulate_before(
                rows,
                cols,
                f,
                (i + 1) as u64,
                0,
            ));
            i = i + 1;
        }
        assert(out@ =~= tabulate(rows, cols, f));
        *self = out;
    }
}

/// No mask: every coordinate may be written.
pub fn empty_matrix_mask<B>() -> (r: Option<&'static SparseMatrix<B>>)
    ensures
        r.is_none(),
{
    None
}

impl<T: TypeEncoder> SparseMatrix<T> {
    /// `C<mask> (accum)= self (+.*) B` under `desc`, into a fresh all-absent `C`
    /// whose shape is the rows of `self` by the columns of `B`, each read
    /// through its transpose flag.
    pub fn mxm<M: CanBool>(
        &self,
        mask: Option<&SparseMatrix<M>>,
        accum: Option<&BinaryOp<T, T, T>>,
        b: &SparseMatrix<T>,
        s_ring: Semiring<T, T, T>,
        desc: &Descriptor,
    ) -> (r: SparseMatrix<T>)
        requires
            self.wf(),
            b.wf(),
            dims(self, desc.transpose0).1 == dims(b, desc.transpose1).0,
            match mask {
                Some(m) => m.wf() && m.spec_rows() == dims(self, desc.transpose0).0 && m.spec_cols()
                    == dims(b, desc.transpose1).1,
                None => true,
            },
        ensures
            r.wf(),
            r.spec_rows() == dims(self, desc.transpose0).0,
            r.spec_cols() == dims(b, desc.transpose1).1,
            r.spec_type().code == T::type_code(),
            r@ == mxm_result(
                Map::empty(),
                dims(self, desc.transpose0).0,
                dims(b, desc.transpose1).1,
                mask_view(mask),
                accum_kind(accum),
                self@,
                b@,
                s_ring.spec_add(),
                s_ring.spec_multiply(),
                *desc,
                dims(self, desc.transpose0).1,
            ),
    {
        let m = if desc.transpose0 {
            self.cols()
        } else {
            self.rows()
        };
        let n = if desc.transpose1 {
            b.rows()
        } else {
            b.cols()
        };
        let mut c = SparseMatrix::<T>::empty((m, n));
        c.mxm_into(mask, accum, self, b, &s_ring, desc);
        c
    }
}

/// Containers that can stand as the left operand of a generalized product.
pub trait MatrixAlgebra<X: TypeEncoder> {
    /// The stored values by coordinate.
    spec fn operand(&self) -> Map<(u64, u64), X>;

    /// The shape, read through a transpose when `transpose` is set.
    spec fn operand_dims(&self, transpose: bool) -> (u64, u64);

    /// Whether the container is well formed.
    spec fn operand_ready(&self) -> bool;

    /// `C<mask> (accum)= self (+.*) B` into a fresh `C`, as `SparseMatrix::mxm`.
    fn mxm<M: CanBool>(
        &self,
        mask: Option<&SparseMatrix<M>>,
        accum: Option<&BinaryOp<X, X, X>>,
        b: &SparseMatrix<X>,
        s_ring: Semiring<X, X, X>,
        desc: &Descriptor,
    ) -> (r: SparseMatrix<X>)
        requires
            self.operand_ready(),
            b.wf(),
            self.operand_dims(desc.transpose0).1 == dims(b, desc.transpose1).0,
            match mask {
                Some(m) => m.wf() && m.spec_rows() == self.operand_dims(desc.transpose0).0
                    && m.spec_cols() == dims(b, desc.transpose1).1,
                None => true,
            },
        ensures
            r.wf(),
            r.spec_rows() == self.operand_dims(desc.transpose0).0,
            r.spec_cols() == dims(b, desc.transpose1).1,
            r@ == mxm_result(
                Map::empty(),
                self.operand_dims(desc.transpose0).0,
                dims(b, desc.transpose1).1,
                mask_view(mask),
                accum_kind(accum),
                self.operand(),
                b@,
                s_ring.spec_add(),
                s_ring.spec_multiply(),
                *desc,
                self.operand_dims(desc.transpose0).1,
            ),
    ;
}

impl<X: TypeEncoder> MatrixAlgebra<X> for SparseMatrix<X> {
    open spec fn operand(&self) -> Map<(u64, u64), X> {
        self@
    }

    open spec fn operand_dims(&self, transpose: bool) -> (u64, u64) {
        dims(self, transpose)
    }

    open spec fn operand_ready(&self) -> bool {
        self.wf()
    }

    fn mxm<M: CanBool>(
        &self,
        mask: Option<&SparseMatrix<M>>,
        accum: Option<&BinaryOp<X, X, X>>,
        b: &SparseMatrix<X>,
        s_ring: Semiring<X, X, X>,
        desc: &Descriptor,
    ) -> (r: SparseMatrix<X>) {
        SparseMatrix::<X>::mxm(self, mask, accum, b, s_ring, desc)
    }
}

/// `acc` folded under `op` with the values of row `i` of `m` at the columns
/// below `j`, in increasing order of column.
pub open spec fn fold_row<T: TypeEncoder>(op: OpKind, acc: T, m: Map<(u64, u64), T>, i: u64, j: nat) -> T
    decreases j,
{
    if j == 0 {
        acc
    } else {
        let prev = fold_row(op, acc, m, i, (j - 1) as nat);
        let k = (j - 1) as u64;
        if m.contains_key((i, k)) {
            T::spec_apply(op, prev, m[(i, k)])
        } else {
            prev
        }
    }
}

/// The fold under `op`, from `identity`, of the values of `m` in the rows below
/// `i` and the columns below `cols`, in row-major order.
pub open spec fn fold_rows<T: TypeEncoder>(
    op: OpKind,
    identity: T,
    m: Map<(u64, u64), T>,
    i: nat,
    cols: u64,
) -> T
    decreases i,
{
    if i == 0 {
        identity
    } else {
        fold_row(op, fold_rows(op, identity, m, (i - 1) as nat, cols), m, (i - 1) as u64, cols as nat)
    }
}

impl<T: TypeEncoder> SparseMatrix<T> {
    /// Folds every stored value, in row-major order, under the monoid's
    /// operator starting from its identity; the result goes to `out`, merged
    /// through `accum` with what `out` held where `accum` is given.
    pub fn reduce(
        &self,
        out: &mut T,
        accum: Option<&BinaryOp<T, T, T>>,
        monoid: &SparseMonoid<T>,
        desc: &Descriptor,
    )
        requires
            self.wf(),
        ensures
            *final(out) == match accum_kind(accum) {
                None => fold_rows(
                    monoid.spec_op(),
                    monoid.spec_identity(),
                    self@,
                    self.spec_rows() as nat,
                    self.spec_cols(),
                ),
                Some(op) => T::spec_apply(
                    op,
                    *old(out),
                    fold_rows(
                        monoid.spec_op(),
                        monoid.spec_identity(),
                        self@,
                        self.spec_rows() as nat,
                        self.spec_cols(),
                    ),
                ),
            },
    {
        let op = monoid.op();
        let rows = self.rows();
        let cols = self.cols();
        let mut acc = monoid.identity();
        let mut i: u64 = 0;
        while i < rows
            invariant
                self.wf(),
                rows == self.spec_rows(),
                cols == self.spec_cols(),
                op.spec_kind() == monoid.spec_op(),
                i <= rows,
                acc == fold_rows(monoid.spec_op(), monoid.spec_identity(), self@, i as nat, cols),
            decreases rows - i,
        {
            let ghost start = acc;
            let mut j: u64 = 0;
            while j < cols
                invariant
                    self.wf(),
                    rows == self.spec_rows(),
                    cols == self.spec_cols(),
                    op.spec_kind() == monoid.spec_op(),
                    i < rows,
                    j <= cols,
                    start == fold_rows(monoid.spec_op(), monoid.spec_identity(), self@, i as nat, cols),
                    acc == fold_row(monoid.spec_op(), start, self@, i, j as nat),
                decreases cols - j,
            {
                match self.get(i, j) {
                    Some(x) => {
                        acc = op.call(acc, x);
                    },
                    None => {},
                }
                j = j + 1;
            }
            i = i + 1;
        }
        match accum {
            Some(f) => {
                *out = f.call(*out, acc);
            },
            None => {
                *out = acc;
            },
        }
    }
}

} // verus!
