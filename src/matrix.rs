use vstd::prelude::*;
use crate::types::{SparseType, TypeEncoder};

verus! {

/// The value stored at `(i, j)` of a coordinate map, or `None` where there is none.
pub open spec fn entry_of<T>(m: Map<(u64, u64), T>, i: u64, j: u64) -> Option<T> {
    if m.contains_key((i, j)) {
        Some(m[(i, j)])
    } else {
        None
    }
}

/// Every key of `m` lies inside a `rows` by `cols` shape.
pub open spec fn within_shape<T>(m: Map<(u64, u64), T>, rows: u64, cols: u64) -> bool {
    forall|k: (u64, u64)| #[trigger] m.contains_key(k) ==> k.0 < rows && k.1 < cols
}

/// The map that writing `vals[p]` at `(rs[p], cs[p])`, for `p` from `0` to `n - 1`
/// in order, makes of `m`: a later write to a coordinate wins.
pub open spec fn loaded<T>(m: Map<(u64, u64), T>, vals: Seq<T>, rs: Seq<u64>, cs: Seq<u64>, n: nat) -> Map<
    (u64, u64),
    T,
>
    decreases n,
{
    if n == 0 {
        m
    } else {
        let p = n - 1;
        loaded(m, vals, rs, cs, p as nat).insert((rs[p], cs[p]), vals[p])
    }
}

/// A sparse matrix: a shape and a set of stored values at unique coordinates.
/// Absence at a coordinate is a state of its own, distinct from any value.
pub struct SparseMatrix<T> {
    nrows: u64,
    ncols: u64,
    tpe: SparseType,
    entries: Vec<(u64, u64, T)>,
    slot: Ghost<Map<(u64, u64), int>>,
}

impl<T> View for SparseMatrix<T> {
    type V = Map<(u64, u64), T>;

    closed spec fn view(&self) -> Map<(u64, u64), T> {
        Map::new(
            |k: (u64, u64)| self.slot@.contains_key(k),
            |k: (u64, u64)| self.entries@[self.slot@[k]].2,
        )
    }
}

impl<T> SparseMatrix<T> {
    pub closed spec fn spec_rows(&self) -> u64 {
        self.nrows
    }

    pub closed spec fn spec_cols(&self) -> u64 {
        self.ncols
    }

    pub closed spec fn spec_type(&self) -> SparseType {
        self.tpe
    }

    /// Each stored entry has one slot, each slot one entry, all inside the shape.
    pub closed spec fn wf(&self) -> bool {
        &&& self.slot@.dom().finite()
        &&& self.slot@.dom().len() == self.entries@.len()
        &&& forall|k: (u64, u64)| #[trigger]
            self.slot@.contains_key(k) ==> {
                &&& 0 <= self.slot@[k] < self.entries@.len()
                &&& self.entries@[self.slot@[k]].0 == k.0
                &&& self.entries@[self.slot@[k]].1 == k.1
                &&& k.0 < self.nrows
                &&& k.1 < self.ncols
            }
        &&& forall|p: int|
            0 <= p < self.entries@.len() ==> {
                &&& self.slot@.contains_key((#[trigger] self.entries@[p].0, self.entries@[p].1))
                &&& self.slot@[(self.entries@[p].0, self.entries@[p].1)] == p
            }
    }

    /// A well-formed matrix stores values only inside its shape.
    pub proof fn lemma_within_shape(&self)
        requires
            self.wf(),
        ensures
            within_shape(self@, self.spec_rows(), self.spec_cols()),
            self@.dom().finite(),
    {
        assert(self@.dom() =~= self.slot@.dom());
    }

    /// The position in `entries` of the value at `(i, j)`, if one is stored.
    fn find(&self, i: u64, j: u64) -> (r: Option<usize>)
        requires
            self.wf(),
        ensures
            match r {
                Some(p) => self.slot@.contains_key((i, j)) && self.slot@[(i, j)] == p,
                None => !self.slot@.contains_key((i, j)),
            },
    {
        let mut p: usize = 0;
        while p < self.entries.len()
            invariant
                self.wf(),
                p <= self.entries@.len(),
                forall|q: int| 0 <= q < p ==> !(#[trigger] self.entries@[q].0 == i && self.entries@[q].1 == j),
            decreases self.entries@.len() - p,
        {
            let e = &self.entries[p];
            if e.0 == i && e.1 == j {
                return Some(p);
            }
            p = p + 1;
        }
        None
    }

    pub fn rows(&self) -> (r: u64)
        ensures
            r == self.spec_rows(),
    {
        self.nrows
    }

    pub fn cols(&self) -> (r: u64)
        ensures
            r == self.spec_cols(),
    {
        self.ncols
    }

    /// The logical dimensions, as `(rows, cols)`.
    pub fn shape(&self) -> (r: (u64, u64))
        ensures
            r == (self.spec_rows(), self.spec_cols()),
    {
        (self.nrows, self.ncols)
    }

    /// The type descriptor of the element type.
    pub fn elem_type(&self) -> (r: SparseType)
        ensures
            r == self.spec_type(),
    {
        self.tpe
    }

    /// The number of stored values.
    pub fn nvals(&self) -> (r: u64)
        requires
            self.wf(),
        ensures
            r == self@.len(),
    {
        assert(self@.dom() =~= self.slot@.dom());
        self.entries.len() as u64
    }
}

impl<T: Copy> SparseMatrix<T> {
    /// The value stored at `(i, j)`, or `None` where there is none.
    pub fn get(&self, i: u64, j: u64) -> (r: Option<T>)
        requires
            self.wf(),
            i < self.spec_rows(),
            j < self.spec_cols(),
        ensures
            r == entry_of(self@, i, j),
    {
        match self.find(i, j) {
            Some(p) => Some(self.entries[p].2),
            None => None,
        }
    }
}

impl<T: Copy> SparseMatrix<T> {
    /// A second matrix with the same shape, type and contents.
    pub fn duplicate(&self) -> (r: SparseMatrix<T>)
        requires
            self.wf(),
        ensures
            r.wf(),
            r.spec_rows() == self.spec_rows(),
            r.spec_cols() == self.spec_cols(),
            r.spec_type() == self.spec_type(),
            r@ == self@,
    {
        let mut entries: Vec<(u64, u64, T)> = Vec::new();
        let mut p: usize = 0;
        while p < self.entries.len()
            invariant
                p <= self.entries@.len(),
                entries@ == self.entries@.subrange(0, p as int),
            decreases self.entries@.len() - p,
        {
            entries.push(self.entries[p]);
            p = p + 1;
        }
        assert(entries@ =~= self.entries@);
        SparseMatrix {
            nrows: self.nrows,
            ncols: self.ncols,
            tpe: self.tpe,
            entries,
            slot: Ghost(self.slot@),
        }
    }
}

impl<T: TypeEncoder> SparseMatrix<T> {
    /// An all-absent matrix of the given `(rows, cols)` shape.
    pub fn empty(size: (u64, u64)) -> (r: SparseMatrix<T>)
        ensures
            r.wf(),
            r.spec_rows() == size.0,
            r.spec_cols() == size.1,
            r.spec_type().code == T::type_code(),
            r@ == Map::<(u64, u64), T>::empty(),
    {
        let (rows, cols) = size;
        let r = SparseMatrix {
            nrows: rows,
            ncols: cols,
            tpe: T::blas_type(),
            entries: Vec::new(),
            slot: Ghost(Map::empty()),
        };
        assert(r@ =~= Map::<(u64, u64), T>::empty());
        r
    }

    /// Stores `val` at `(row, col)`, replacing any value already there.
    pub fn insert(&mut self, row: u64, col: u64, val: T)
        requires
            old(self).wf(),
            row < old(self).spec_rows(),
            col < old(self).spec_cols(),
        ensures
            final(self).wf(),
            final(self).spec_rows() == old(self).spec_rows(),
            final(self).spec_cols() == old(self).spec_cols(),
            final(self).spec_type() == old(self).spec_type(),
            final(self)@ == old(self)@.insert((row, col), val),
    {
        let ghost before = self@;
        match self.find(row, col) {
            Some(p) => {
                self.entries.set(p, (row, col, val));
            },
            None => {
                let ghost n = self.entries@.len() as int;
                self.entries.push((row, col, val));
                self.slot = Ghost(self.slot@.insert((row, col), n));
            },
        }
        assert(self@ =~= before.insert((row, col), val));
    }

    /// Writes `values[p]` at `(row_indices[p], col_indices[p])` for each `p`
    /// below `count`, in order; where a coordinate repeats, the last write wins.
    pub fn load(&mut self, count: u64, values: &[T], row_indices: &[u64], col_indices: &[u64])
        requires
            old(self).wf(),
            values@.len() == count,
            row_indices@.len() == count,
            col_indices@.len() == count,
            forall|p: int| 0 <= p < count ==> #[trigger] row_indices@[p] < old(self).spec_rows(),
            forall|p: int| 0 <= p < count ==> #[trigger] col_indices@[p] < old(self).spec_cols(),
        ensures
            final(self).wf(),
            final(self).spec_rows() == old(self).spec_rows(),
            final(self).spec_cols() == old(self).spec_cols(),
            final(self).spec_type() == old(self).spec_type(),
            final(self)@ == loaded(old(self)@, values@, row_indices@, col_indices@, count as nat),
    {
        let ghost start = self@;
        let mut p: usize = 0;
        while p < values.len()
            invariant
                self.wf(),
                self.spec_rows() == old(self).spec_rows(),
                self.spec_cols() == old(self).spec_cols(),
                self.spec_type() == old(self).spec_type(),
                start == old(self)@,
                values@.len() == count,
                row_indices@.len() == count,
                col_indices@.len() == count,
                forall|q: int| 0 <= q < count ==> #[trigger] row_indices@[q] < old(self).spec_rows(),
                forall|q: int| 0 <= q < count ==> #[trigger] col_indices@[q] < old(self).spec_cols(),
                p <= count,
                self@ == loaded(start, values@, row_indices@, col_indices@, p as nat),
            decreases count - p,
        {
            self.insert(row_indices[p], col_indices[p], values[p]);
            p = p + 1;
        }
    }
}

/// A container addressed by `(row, col)` that stores and reads values one at a time.
pub trait MatrixLike {
    type Item;

    /// The stored values by coordinate.
    spec fn cells(&self) -> Map<(u64, u64), Self::Item>;

    /// Whether `(i, j)` can be addressed: the container is well formed and the
    /// coordinate lies inside its shape.
    spec fn addressable(&self, i: u64, j: u64) -> bool;

    fn insert(&mut self, row: u64, col: u64, val: Self::Item)
        requires
            old(self).addressable(row, col),
        ensures
            final(self).cells() == old(self).cells().insert((row, col), val),
            forall|i: u64, j: u64|
                #[trigger] final(self).addressable(i, j) == old(self).addressable(i, j),
    ;

    fn get(&self, i: u64, j: u64) -> (r: Option<Self::Item>)
        requires
            self.addressable(i, j),
        ensures
            r == entry_of(self.cells(), i, j),
    ;
}

impl<T: TypeEncoder> MatrixLike for SparseMatrix<T> {
    type Item = T;

    open spec fn cells(&self) -> Map<(u64, u64), T> {
        self@
    }

    open spec fn addressable(&self, i: u64, j: u64) -> bool {
        self.wf() && i < self.spec_rows() && j < self.spec_cols()
    }

    fn insert(&mut self, row: u64, col: u64, val: T) {
        SparseMatrix::<T>::insert(self, row, col, val)
    }

    fn get(&self, i: u64, j: u64) -> (r: Option<T>) {
        SparseMatrix::<T>::get(self, i, j)
    }
}

} // verus!
