use sparse_blas::binops::BinaryOp;
use sparse_blas::bfs::bfs_levels;
use sparse_blas::desc::{Descriptor, Field, Value};
use sparse_blas::matrix::{MatrixLike, SparseMatrix};
use sparse_blas::matrix_algebra::{empty_matrix_mask, MatrixAlgebra};
use sparse_blas::monoid::{Semiring, SparseMonoid};
use sparse_blas::types::{OpKind, TypeCode, TypeEncoder};
use sparse_blas::vector::{empty_mask, SparseVector};
use std::collections::HashSet;

fn adjacency(rows: &[u64], cols: &[u64]) -> SparseMatrix<bool> {
    let mut a = SparseMatrix::<bool>::empty((7, 7));
    let n = rows.len();
    a.load(n as u64, &vec![true; n], rows, cols);
    a
}

fn or_and() -> Semiring<bool, bool, bool> {
    let lor_monoid = SparseMonoid::<bool>::new(BinaryOp::<bool, bool, bool>::lor(), false);
    Semiring::new(lor_monoid, BinaryOp::<bool, bool, bool>::land())
}

fn plus_times() -> Semiring<i32, i32, i32> {
    let plus = SparseMonoid::<i32>::new(BinaryOp::<i32, i32, i32>::plus(), 0);
    Semiring::new(plus, BinaryOp::<i32, i32, i32>::times())
}

#[test]
fn create_bool_sparse_matrix() {
    let mut m = SparseMatrix::<bool>::empty((5, 5));
    assert!(m.rows() == 5);
    assert!(m.insert(0, 3, true) == ());
    assert!(m.insert(1, 3, true) == ());
    assert!(m.insert(2, 3, true) == ());
    assert!(m.insert(3, 3, true) == ());
    assert!(m.insert(4, 3, true) == ());
    assert!(m.get(1, 3) == Some(true));
    assert!(m.get(0, 0) == None);
    assert!(m.get(1, 3) == Some(true));
    assert!(m.get(2, 3) == Some(true));
    assert!(m.get(0, 3) == Some(true));
}

#[test]
fn multiply_2_matrices_with_mxm_for_bfs_no_transpose() {
    let a = adjacency(&[0, 0, 1, 1, 2, 3, 4, 5, 6, 6], &[1, 3, 6, 4, 5, 4, 5, 4, 2, 3]);

    // get the neighbours for 0 and 6
    let mut b = SparseMatrix::<bool>::empty((2, 7));
    b.insert(0, 0, true);
    b.insert(1, 6, true);

    let c = b.mxm(empty_matrix_mask::<bool>(), None, &a, or_and(), &Descriptor::default());
    let (r, cols) = c.shape();

    assert_eq!(r, 2);
    assert_eq!(cols, 7);

    let n = vec![(0, 1), (0, 3), (1, 2), (1, 3)];
    let neighbours = n.iter().fold(HashSet::new(), |mut set, x| {
        set.insert(*x);
        set
    });

    for i in 0..r {
        for j in 0..cols {
            let x = c.get(i, j);
            if neighbours.contains(&(i, j)) {
                assert_eq!(x, Some(true));
            } else {
                assert_eq!(x, None);
            }
        }
    }
}

#[test]
fn graph_blas_port_bfs() {
    let s: u64 = 0;
    let n = 7;

    let a = adjacency(&[0, 0, 1, 1, 2, 3, 4, 5, 6, 6], &[1, 3, 6, 4, 5, 2, 5, 2, 2, 3]);

    let mut v = SparseVector::<i32>::empty(n);
    let mut q = SparseVector::<bool>::empty(n);

    let default_desc = Descriptor::default();

    v.assign_all(empty_mask::<bool>(), None, 0, n, &default_desc);
    assert_eq!(n, v.nvals());
    q.insert(s, true);

    let lor_monoid = SparseMonoid::<bool>::new(BinaryOp::<bool, bool, bool>::lor(), false);
    let lor_monoid2 = SparseMonoid::<bool>::new(BinaryOp::<bool, bool, bool>::lor(), false);
    let or_and_semi = Semiring::new(lor_monoid, BinaryOp::<bool, bool, bool>::land());

    let desc = Descriptor::default()
        .set(Field::Mask, Value::Complement)
        .set(Field::Output, Value::Replace);

    let mut successor = true;

    let mut level: i32 = 1;
    while successor && level <= (n as i32) {
        v.assign_all(Some(&q), None, level, n, &default_desc);
        q.vxm(Some(&v), None, &a, &or_and_semi, &desc);
        q.reduce(&mut successor, None, &lor_monoid2, &default_desc);
        level = level + 1;
    }
    assert_eq!(v.get(0), Some(1));

    assert_eq!(v.get(1), Some(2));
    assert_eq!(v.get(3), Some(2));

    assert_eq!(v.get(4), Some(3));
    assert_eq!(v.get(6), Some(3));
    assert_eq!(v.get(2), Some(3));

    assert_eq!(v.get(5), Some(4));
}

#[test]
fn create_semiring_bool_i32() {
    let m = SparseMonoid::<bool>::new(BinaryOp::<bool, bool, bool>::lor(), false);
    let land = BinaryOp::<bool, bool, bool>::land();
    Semiring::new(m, land);
}

#[test]
fn bfs_levels_matches_the_stepwise_search() {
    let a = adjacency(&[0, 0, 1, 1, 2, 3, 4, 5, 6, 6], &[1, 3, 6, 4, 5, 2, 5, 2, 2, 3]);
    let v = bfs_levels(&a, 0);
    let got: Vec<Option<i32>> = (0..7).map(|i| v.get(i)).collect();
    let want: Vec<Option<i32>> = vec![1, 2, 3, 2, 3, 4, 3].into_iter().map(Some).collect();
    assert_eq!(got, want);
}

#[test]
fn bfs_levels_when_two_is_reached_late() {
    // Vertex 2 is reached only through 6, which is two steps from 0.
    let a = adjacency(&[0, 0, 1, 1, 2, 3, 4, 5, 6, 6], &[1, 3, 6, 4, 5, 4, 5, 4, 2, 3]);
    let v = bfs_levels(&a, 0);
    let got: Vec<Option<i32>> = (0..7).map(|i| v.get(i)).collect();
    let want: Vec<Option<i32>> = vec![1, 2, 4, 2, 3, 4, 3].into_iter().map(Some).collect();
    assert_eq!(got, want);
}

#[test]
fn bfs_levels_leaves_unreached_vertices_at_zero() {
    let a = adjacency(&[0, 1], &[1, 0]);
    let v = bfs_levels(&a, 0);
    assert_eq!(v.get(0), Some(1));
    assert_eq!(v.get(1), Some(2));
    for i in 2..7 {
        assert_eq!(v.get(i), Some(0));
    }
    assert_eq!(v.nvals(), 7);
}

#[test]
fn insert_then_get_round_trip() {
    let mut m = SparseMatrix::<i32>::empty((4, 6));
    m.insert(3, 5, -17);
    assert_eq!(m.get(3, 5), Some(-17));
    assert_eq!(m.get(5 - 5, 0), None);
    assert_eq!(m.get(3, 4), None);
    assert_eq!(m.nvals(), 1);
}

#[test]
fn overwrite_keeps_the_count() {
    let mut m = SparseMatrix::<i8>::empty((3, 3));
    m.insert(1, 1, 4);
    m.insert(2, 0, 9);
    assert_eq!(m.nvals(), 2);
    m.insert(1, 1, -6);
    assert_eq!(m.get(1, 1), Some(-6));
    assert_eq!(m.nvals(), 2);
}

#[test]
fn present_false_is_not_absent() {
    let mut m = SparseMatrix::<bool>::empty((2, 2));
    m.insert(0, 1, false);
    assert_eq!(m.get(0, 1), Some(false));
    assert_eq!(m.get(1, 0), None);
}

#[test]
fn load_with_repeated_coordinate_keeps_the_last_write() {
    let mut m = SparseMatrix::<u64>::empty((3, 3));
    m.load(3, &[10, 20, 30], &[0, 1, 0], &[2, 2, 2]);
    assert_eq!(m.get(0, 2), Some(30));
    assert_eq!(m.get(1, 2), Some(20));
    assert_eq!(m.nvals(), 2);
}

#[test]
fn empty_has_the_shape_and_type() {
    let m = SparseMatrix::<i32>::empty((3, 8));
    assert_eq!(m.shape(), (3, 8));
    assert_eq!(m.cols(), 8);
    assert_eq!(m.nvals(), 0);
    assert_eq!(m.elem_type().code, TypeCode::Int32);
    assert_eq!(bool::blas_type().code, TypeCode::Bool);
}

#[test]
fn mxm_shape_is_rows_of_a_by_cols_of_b() {
    let a = SparseMatrix::<i32>::empty((2, 5));
    let b = SparseMatrix::<i32>::empty((5, 3));
    let c = a.mxm(empty_matrix_mask::<bool>(), None, &b, plus_times(), &Descriptor::default());
    assert_eq!(c.shape(), (2, 3));
    assert_eq!(c.nvals(), 0);
}

#[test]
fn mxm_plus_times_values() {
    // [1 2] * [5 6]   [19 22]
    // [3 4]   [7 8] = [43 50]
    let mut a = SparseMatrix::<i32>::empty((2, 2));
    a.load(4, &[1, 2, 3, 4], &[0, 0, 1, 1], &[0, 1, 0, 1]);
    let mut b = SparseMatrix::<i32>::empty((2, 2));
    b.load(4, &[5, 6, 7, 8], &[0, 0, 1, 1], &[0, 1, 0, 1]);
    let c = a.mxm(empty_matrix_mask::<bool>(), None, &b, plus_times(), &Descriptor::default());
    assert_eq!(c.get(0, 0), Some(19));
    assert_eq!(c.get(0, 1), Some(22));
    assert_eq!(c.get(1, 0), Some(43));
    assert_eq!(c.get(1, 1), Some(50));
}

#[test]
fn mxm_structural_sparsity() {
    // A[0, 1] has no partner in row 1 of B, so C[0, _] stays absent; a stored
    // zero still pairs and gives a present zero.
    let mut a = SparseMatrix::<i32>::empty((2, 2));
    a.insert(0, 1, 3);
    a.insert(1, 0, 0);
    let mut b = SparseMatrix::<i32>::empty((2, 2));
    b.insert(0, 0, 5);
    let c = a.mxm(empty_matrix_mask::<bool>(), None, &b, plus_times(), &Descriptor::default());
    assert_eq!(c.get(0, 0), None);
    assert_eq!(c.get(0, 1), None);
    assert_eq!(c.get(1, 0), Some(0));
    assert_eq!(c.get(1, 1), None);
}

#[test]
fn mxm_transpose_flags() {
    let mut a = SparseMatrix::<i32>::empty((2, 3));
    a.load(3, &[1, 2, 3], &[0, 0, 1], &[0, 2, 1]);
    // A^T A is 3 by 3
    let desc = Descriptor::default().set(Field::Input0, Value::Transpose);
    let c = a.mxm(empty_matrix_mask::<bool>(), None, &a, plus_times(), &desc);
    assert_eq!(c.shape(), (3, 3));
    assert_eq!(c.get(0, 0), Some(1));
    assert_eq!(c.get(0, 2), Some(2));
    assert_eq!(c.get(2, 2), Some(4));
    assert_eq!(c.get(1, 1), Some(9));
    assert_eq!(c.get(0, 1), None);
    // A A^T is 2 by 2
    let desc = Descriptor::default().set(Field::Input1, Value::Transpose);
    let c = a.mxm(empty_matrix_mask::<bool>(), None, &a, plus_times(), &desc);
    assert_eq!(c.shape(), (2, 2));
    assert_eq!(c.get(0, 0), Some(5));
    assert_eq!(c.get(1, 1), Some(9));
    assert_eq!(c.get(0, 1), None);
}

#[test]
fn mask_and_its_complement_split_the_product() {
    let mut a = SparseMatrix::<i32>::empty((2, 2));
    a.load(4, &[1, 2, 3, 4], &[0, 0, 1, 1], &[0, 1, 0, 1]);
    let mut mask = SparseMatrix::<i32>::empty((2, 2));
    mask.insert(0, 0, 7);
    mask.insert(1, 1, 0); // a stored zero reads as false
    let plain = a.mxm(Some(&mask), None, &a, plus_times(), &Descriptor::default());
    let inverted = a.mxm(
        Some(&mask),
        None,
        &a,
        plus_times(),
        &Descriptor::default().set(Field::Mask, Value::Complement),
    );
    assert_eq!(plain.get(0, 0), Some(7));
    assert_eq!(plain.nvals(), 1);
    assert_eq!(inverted.get(0, 0), None);
    assert_eq!(inverted.get(0, 1), Some(10));
    assert_eq!(inverted.get(1, 0), Some(15));
    assert_eq!(inverted.get(1, 1), Some(22));
    assert_eq!(inverted.nvals(), 3);
}

#[test]
fn mxm_into_accumulates_and_replaces() {
    let mut a = SparseMatrix::<i32>::empty((2, 2));
    a.insert(0, 0, 2);
    a.insert(1, 1, 3);
    let mut c = SparseMatrix::<i32>::empty((2, 2));
    c.insert(0, 0, 100);
    c.insert(0, 1, 50);
    let plus = BinaryOp::<i32, i32, i32>::plus();
    c.mxm_into(empty_matrix_mask::<bool>(), Some(&plus), &a, &a, &plus_times(), &Descriptor::default());
    assert_eq!(c.get(0, 0), Some(104));
    assert_eq!(c.get(0, 1), Some(50));
    assert_eq!(c.get(1, 1), Some(9));

    let mut mask = SparseMatrix::<bool>::empty((2, 2));
    mask.insert(1, 1, true);
    let replace = Descriptor::default().set(Field::Output, Value::Replace);
    c.mxm_into(Some(&mask), None, &a, &a, &plus_times(), &replace);
    assert_eq!(c.get(0, 0), None);
    assert_eq!(c.get(0, 1), None);
    assert_eq!(c.get(1, 1), Some(9));
    assert_eq!(c.nvals(), 1);
}

#[test]
fn merge_keeps_values_outside_the_mask() {
    let mut a = SparseMatrix::<i32>::empty((2, 2));
    a.insert(0, 0, 2);
    let mut c = SparseMatrix::<i32>::empty((2, 2));
    c.insert(1, 0, 8);
    let mut mask = SparseMatrix::<bool>::empty((2, 2));
    mask.insert(0, 0, true);
    c.mxm_into(Some(&mask), None, &a, &a, &plus_times(), &Descriptor::default());
    assert_eq!(c.get(0, 0), Some(4));
    assert_eq!(c.get(1, 0), Some(8));
}

#[test]
fn reduce_of_empty_vector_is_identity() {
    let v = SparseVector::<i32>::empty(5);
    let times = SparseMonoid::<i32>::new(BinaryOp::<i32, i32, i32>::times(), 1);
    let mut out: i32 = -3;
    v.reduce(&mut out, None, &times, &Descriptor::default());
    assert_eq!(out, 1);
    let q = SparseVector::<bool>::empty(3);
    let lor = SparseMonoid::<bool>::new(BinaryOp::<bool, bool, bool>::lor(), false);
    let mut any = true;
    q.reduce(&mut any, None, &lor, &Descriptor::default());
    assert!(!any);
}

#[test]
fn reduce_folds_with_accumulator() {
    let mut v = SparseVector::<i32>::empty(4);
    v.insert(0, 3);
    v.insert(2, 4);
    let plus = SparseMonoid::<i32>::new(BinaryOp::<i32, i32, i32>::plus(), 0);
    let mut out: i32 = 0;
    v.reduce(&mut out, None, &plus, &Descriptor::default());
    assert_eq!(out, 7);
    let acc = BinaryOp::<i32, i32, i32>::times();
    let mut out2: i32 = 10;
    v.reduce(&mut out2, Some(&acc), &plus, &Descriptor::default());
    assert_eq!(out2, 70);
}

#[test]
fn assign_all_under_mask_and_complement() {
    let mut mask = SparseVector::<bool>::empty(4);
    mask.insert(1, true);
    mask.insert(2, false);
    let mut v = SparseVector::<i32>::empty(4);
    v.insert(3, 9);
    v.assign_all(Some(&mask), None, 5, 4, &Descriptor::default());
    assert_eq!(v.get(0), None);
    assert_eq!(v.get(1), Some(5));
    assert_eq!(v.get(2), None);
    assert_eq!(v.get(3), Some(9));
    let comp = Descriptor::default().set(Field::Mask, Value::Complement).set(Field::Output, Value::Replace);
    v.assign_all(Some(&mask), None, 2, 4, &comp);
    assert_eq!(v.get(0), Some(2));
    assert_eq!(v.get(1), None);
    assert_eq!(v.get(2), Some(2));
    assert_eq!(v.get(3), Some(2));
    assert_eq!(v.size(), 4);
}

#[test]
fn vxm_moves_a_frontier() {
    let a = adjacency(&[0, 0, 1, 1, 2, 3, 4, 5, 6, 6], &[1, 3, 6, 4, 5, 4, 5, 4, 2, 3]);
    let mut q = SparseVector::<bool>::empty(7);
    q.insert(6, true);
    q.vxm(empty_mask::<bool>(), None, &a, &or_and(), &Descriptor::default());
    let got: Vec<u64> = (0..7).filter(|i| q.get(*i) == Some(true)).collect();
    assert_eq!(got, vec![2, 3]);
    assert_eq!(q.nvals(), 2);
}

#[test]
fn operators_compute_their_kind() {
    assert_eq!(BinaryOp::<i32, i32, i32>::plus().call(i32::MAX, 1), i32::MIN);
    assert_eq!(BinaryOp::<i32, i32, i32>::times().call(-4, 6), -24);
    assert_eq!(BinaryOp::<i8, i8, i8>::min().call(-4, 6), -4);
    assert_eq!(BinaryOp::<u64, u64, u64>::max().call(4, 6), 6);
    assert_eq!(BinaryOp::<i32, i32, i32>::lor().call(0, 7), 1);
    assert_eq!(BinaryOp::<i32, i32, i32>::land().call(0, 7), 0);
    assert_eq!(BinaryOp::<bool, bool, bool>::lxor().call(true, true), false);
    assert_eq!(BinaryOp::<bool, bool, bool>::first().call(true, false), true);
    assert_eq!(BinaryOp::<bool, bool, bool>::second().call(true, false), false);
    assert_eq!(BinaryOp::<u64, u64, u64>::of_kind(OpKind::Plus).kind(), OpKind::Plus);
}

#[test]
fn monoid_and_semiring_keep_their_parts() {
    let m = SparseMonoid::<i32>::new(BinaryOp::<i32, i32, i32>::max(), i32::MIN);
    assert_eq!(m.identity(), i32::MIN);
    assert_eq!(m.op().kind(), OpKind::Max);
    let s = Semiring::new(m, BinaryOp::<i32, i32, i32>::plus());
    assert_eq!(s.add_op().kind(), OpKind::Max);
    assert_eq!(s.multiply_op().kind(), OpKind::Plus);
    // the monoid is still usable on its own
    assert_eq!(m.identity(), i32::MIN);
}

#[test]
fn descriptor_set_touches_one_field() {
    let d = Descriptor::default();
    assert!(!d.complement && !d.replace && !d.transpose0 && !d.transpose1);
    let d = d.set(Field::Output, Value::Replace);
    assert!(d.replace && !d.complement);
    let d = d.set(Field::Output, Value::Merge);
    assert!(!d.replace);
    let d = d.set(Field::Input1, Value::Transpose);
    assert!(d.transpose1 && !d.transpose0);
}

#[test]
fn matrix_reduce_in_row_major_order() {
    let mut m = SparseMatrix::<i32>::empty((2, 3));
    m.load(3, &[5, 7, -2], &[1, 0, 0], &[0, 2, 1]);
    let plus = SparseMonoid::<i32>::new(BinaryOp::<i32, i32, i32>::plus(), 0);
    let mut out: i32 = 99;
    m.reduce(&mut out, None, &plus, &Descriptor::default());
    assert_eq!(out, 10);
    // second keeps the last value in row-major order: (1, 0)
    let second = SparseMonoid::<i32>::new(BinaryOp::<i32, i32, i32>::second(), 0);
    m.reduce(&mut out, None, &second, &Descriptor::default());
    assert_eq!(out, 5);
    let empty = SparseMatrix::<i32>::empty((4, 4));
    let min = SparseMonoid::<i32>::new(BinaryOp::<i32, i32, i32>::min(), i32::MAX);
    let acc = BinaryOp::<i32, i32, i32>::plus();
    let mut total: i32 = 1;
    empty.reduce(&mut total, Some(&acc), &min, &Descriptor::default());
    assert_eq!(total, i32::MIN);
}

#[test]
fn trait_methods_reach_the_same_container() {
    let mut m = SparseMatrix::<bool>::empty((2, 2));
    MatrixLike::insert(&mut m, 1, 0, true);
    assert_eq!(MatrixLike::get(&m, 1, 0), Some(true));
    assert_eq!(MatrixLike::get(&m, 0, 1), None);
    let mut b = SparseMatrix::<bool>::empty((2, 2));
    b.insert(0, 1, true);
    let c = MatrixAlgebra::mxm(&m, empty_matrix_mask::<bool>(), None, &b, or_and(), &Descriptor::default());
    assert_eq!(c.get(1, 1), Some(true));
    assert_eq!(c.nvals(), 1);
}
