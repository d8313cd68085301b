//! A typed algebra of sparse matrices and vectors over user-chosen semirings:
//! masked, accumulated generalized products, assignment and reduction, with a
//! level-synchronous breadth-first search built on top of them.

pub mod types;
pub mod binops;
pub mod monoid;
pub mod desc;
pub mod matrix;
pub mod matrix_algebra;
pub mod vector;
pub mod bfs;
pub mod laws;
