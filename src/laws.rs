use vstd::prelude::*;
use crate::desc::Descriptor;
use crate::matrix::{entry_of, loaded};
use crate::matrix_algebra::{dot, fold_row, fold_rows, mxm_result, operand_at, product};
use crate::types::{CanBool, OpKind, TypeEncoder};
use crate::vector::reduce_upto;

verus! {

/// After a value is stored at a coordinate, reading that coordinate gives the
/// value, and every other coordinate reads as before.
pub proof fn law_insert_get<T>(m: Map<(u64, u64), T>, i: u64, j: u64, v: T)
    ensures
        entry_of(m.insert((i, j), v), i, j) == Some(v),
        forall|i2: u64, j2: u64|
            (i2, j2) != (i, j) ==> #[trigger] entry_of(m.insert((i, j), v), i2, j2) == entry_of(
                m,
                i2,
                j2,
            ),
{
}

/// A coordinate that no write of a bulk load names reads as absent after the
/// load into an empty matrix.
pub proof fn law_never_written_is_absent<T>(
    vals: Seq<T>,
    rs: Seq<u64>,
    cs: Seq<u64>,
    n: nat,
    i: u64,
    j: u64,
)
    requires
        n <= vals.len(),
        n <= rs.len(),
        n <= cs.len(),
        forall|p: int| 0 <= p < n ==> !(#[trigger] rs[p] == i && cs[p] == j),
    ensures
        entry_of(loaded(Map::empty(), vals, rs, cs, n), i, j) is None,
    decreases n,
{
    if n > 0 {
        law_never_written_is_absent(vals, rs, cs, (n - 1) as nat, i, j);
    }
}

/// Storing `v1` and then `v2` at one coordinate leaves `v2` there, and the
/// second write does not change the number of stored values.
pub proof fn law_overwrite<T>(m: Map<(u64, u64), T>, i: u64, j: u64, v1: T, v2: T)
    requires
        m.dom().finite(),
    ensures
        entry_of(m.insert((i, j), v1).insert((i, j), v2), i, j) == Some(v2),
        m.insert((i, j), v1).insert((i, j), v2).len() == m.insert((i, j), v1).len(),
{
    assert(m.insert((i, j), v1).insert((i, j), v2).dom() =~= m.insert((i, j), v1).dom());
}

/// The product of an `m` by `k` and a `k` by `n` operand holds values only
/// inside an `m` by `n` shape, whatever the mask, accumulator and descriptor.
pub proof fn law_product_shape<T: TypeEncoder, M: CanBool>(
    m: u64,
    n: u64,
    mask: Option<Map<(u64, u64), M>>,
    accum: Option<OpKind>,
    a: Map<(u64, u64), T>,
    b: Map<(u64, u64), T>,
    add: OpKind,
    mul: OpKind,
    desc: Descriptor,
    k: u64,
)
    ensures
        forall|key: (u64, u64)| #[trigger]
            mxm_result(Map::empty(), m, n, mask, accum, a, b, add, mul, desc, k).contains_key(key)
                ==> key.0 < m && key.1 < n,
{
}

/// The dot product has a value only where some `k` pairs two present values.
proof fn lemma_dot_needs_pair<T: TypeEncoder>(
    add: OpKind,
    mul: OpKind,
    a: Map<(u64, u64), T>,
    ta: bool,
    b: Map<(u64, u64), T>,
    tb: bool,
    i: u64,
    j: u64,
    n: nat,
)
    requires
        forall|k: u64|
            k < n ==> !((#[trigger] operand_at(a, ta, i, k)).is_some() && operand_at(
                b,
                tb,
                k,
                j,
            ).is_some()),
    ensures
        dot(add, mul, a, ta, b, tb, i, j, n) is None,
    decreases n,
{
    if n > 0 {
        lemma_dot_needs_pair(add, mul, a, ta, b, tb, i, j, (n - 1) as nat);
        let k = (n - 1) as u64;
        assert(!(operand_at(a, ta, i, k).is_some() && operand_at(b, tb, k, j).is_some()));
    }
}

/// A product into a fresh output holds no value at `(i, j)` unless some `k`
/// below the inner dimension has values at both `A[i, k]` and `B[k, j]`.
pub proof fn law_structural_sparsity<T: TypeEncoder, M: CanBool>(
    m: u64,
    n: u64,
    mask: Option<Map<(u64, u64), M>>,
    accum: Option<OpKind>,
    a: Map<(u64, u64), T>,
    b: Map<(u64, u64), T>,
    add: OpKind,
    mul: OpKind,
    desc: Descriptor,
    inner: u64,
    i: u64,
    j: u64,
)
    requires
        forall|k: u64|
            k < inner ==> !((#[trigger] operand_at(a, desc.transpose0, i, k)).is_some()
                && operand_at(b, desc.transpose1, k, j).is_some()),
    ensures
        !mxm_result(Map::empty(), m, n, mask, accum, a, b, add, mul, desc, inner).contains_key(
            (i, j),
        ),
{
    lemma_dot_needs_pair(add, mul, a, desc.transpose0, b, desc.transpose1, i, j, inner as nat);
}

/// Into a fresh output, a product under a complemented mask holds values at
/// exactly those coordinates of the unmasked product where the same product
/// under the plain mask holds none; both agree with the unmasked product
/// wherever they hold a value.
pub proof fn law_mask_complement<T: TypeEncoder, M: CanBool>(
    m: u64,
    n: u64,
    mask: Option<Map<(u64, u64), M>>,
    accum: Option<OpKind>,
    a: Map<(u64, u64), T>,
    b: Map<(u64, u64), T>,
    add: OpKind,
    mul: OpKind,
    desc: Descriptor,
    inner: u64,
)
    ensures
        ({
            let plain = Descriptor { complement: false, ..desc };
            let inverted = Descriptor { complement: true, ..desc };
            let full = product(m, n, a, b, add, mul, desc.transpose0, desc.transpose1, inner);
            let with_plain = mxm_result(Map::empty(), m, n, mask, accum, a, b, add, mul, plain, inner);
            let with_inverted = mxm_result(
                Map::empty(),
                m,
                n,
                mask,
                accum,
                a,
                b,
                add,
                mul,
                inverted,
                inner,
            );
            &&& forall|key: (u64, u64)| #[trigger]
                with_inverted.contains_key(key) <==> (full.contains_key(key)
                    && !with_plain.contains_key(key))
            &&& forall|key: (u64, u64)| #[trigger]
                with_plain.contains_key(key) ==> full.contains_key(key) && with_plain[key]
                    == full[key]
            &&& forall|key: (u64, u64)| #[trigger]
                with_inverted.contains_key(key) ==> full.contains_key(key) && with_inverted[key]
                    == full[key]
        }),
{
}

/// Reducing a vector that holds no value gives the monoid's identity.
pub proof fn law_reduce_empty_vector<T: TypeEncoder>(op: OpKind, identity: T, n: nat)
    ensures
        reduce_upto(op, identity, Map::<u64, T>::empty(), n) == identity,
    decreases n,
{
    if n > 0 {
        law_reduce_empty_vector(op, identity, (n - 1) as nat);
    }
}

proof fn lemma_fold_row_empty<T: TypeEncoder>(op: OpKind, acc: T, i: u64, j: nat)
    ensures
        fold_row(op, acc, Map::<(u64, u64), T>::empty(), i, j) == acc,
    decreases j,
{
    if j > 0 {
        lemma_fold_row_empty(op, acc, i, (j - 1) as nat);
    }
}

/// Reducing a matrix that holds no value gives the monoid's identity.
pub proof fn law_reduce_empty_matrix<T: TypeEncoder>(op: OpKind, identity: T, rows: nat, cols: u64)
    ensures
        fold_rows(op, identity, Map::<(u64, u64), T>::empty(), rows, cols) == identity,
    decreases rows,
{
    if rows > 0 {
        law_reduce_empty_matrix(op, identity, (rows - 1) as nat, cols);
        lemma_fold_row_empty(op, identity, (rows - 1) as u64, cols as nat);
    }
}

} // verus!
