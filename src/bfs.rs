use vstd::prelude::*;
use crate::binops::BinaryOp;
use crate::desc::{Descriptor, Field, Value};
use crate::matrix::SparseMatrix;
use crate::monoid::{Semiring, SparseMonoid};
use crate::types::OpKind;
use crate::vector::{assign_result, reduce_upto, vxm_result, SparseVector};

verus! {

/// The descriptor with every field at its default.
pub open spec fn plain_desc() -> Descriptor {
    Descriptor { complement: false, replace: false, transpose0: false, transpose1: false }
}

/// The descriptor that writes only where the mask is absent or false, and
/// clears everything else.
pub open spec fn unvisited_desc() -> Descriptor {
    Descriptor { complement: true, replace: true, transpose0: false, transpose1: false }
}

/// The level vector that a level-synchronous search reaches from the level
/// vector `v` and frontier `q` at round `level`: each round stamps the
/// frontier with the level, moves the frontier along the edges of `a` to the
/// vertices not stamped yet, and stops once the frontier is empty or the
/// level passes `n`.
pub open spec fn bfs_rounds(
    a: Map<(u64, u64), bool>,
    n: u64,
    v: Map<u64, i32>,
    q: Map<u64, bool>,
    level: i32,
) -> Map<u64, i32>
    decreases n + 1 - level,
{
    if level < 1 || level > n {
        v
    } else {
        let v2 = assign_result::<i32, bool>(v, n, Some(q), None, level, plain_desc());
        let q2 = vxm_result::<bool, i32>(
            q,
            n,
            Some(v2),
            None,
            q,
            a,
            OpKind::Lor,
            OpKind::Land,
            unvisited_desc(),
            n,
        );
        if reduce_upto(OpKind::Lor, false, q2, n as nat) && level < i32::MAX {
            bfs_rounds(a, n, v2, q2, (level + 1) as i32)
        } else {
            v2
        }
    }
}

/// The all-zero level vector of length `n`.
pub open spec fn zeros(n: u64) -> Map<u64, i32> {
    Map::new(|i: u64| i < n, |i: u64| 0i32)
}

/// No vertex of the frontier `q` has a nonzero level in `v` yet.
pub open spec fn frontier_unstamped(v: Map<u64, i32>, q: Map<u64, bool>) -> bool {
    forall|i: u64| #[trigger] q.contains_key(i) ==> !(v.contains_key(i) && v[i] != 0)
}

/// One round stamps only frontier vertices, and leaves a frontier of vertices
/// that still have no level.
proof fn lemma_round(a: Map<(u64, u64), bool>, n: u64, v: Map<u64, i32>, q: Map<u64, bool>, level: i32)
    requires
        frontier_unstamped(v, q),
    ensures
        ({
            let v2 = assign_result::<i32, bool>(v, n, Some(q), None, level, plain_desc());
            let q2 = vxm_result::<bool, i32>(
                q,
                n,
                Some(v2),
                None,
                q,
                a,
                OpKind::Lor,
                OpKind::Land,
                unvisited_desc(),
                n,
            );
            &&& frontier_unstamped(v2, q2)
            &&& forall|i: u64|
                i < n && v.contains_key(i) && v[i] != 0 ==> #[trigger] v2.contains_key(i) && v2[i]
                    == v[i]
            &&& forall|i: u64| i < n && v.contains_key(i) ==> #[trigger] v2.contains_key(i)
        }),
{
}

/// A vertex that already has a nonzero level keeps it through every later
/// round, and a vertex that has a level keeps having one.
proof fn lemma_rounds_keep(
    a: Map<(u64, u64), bool>,
    n: u64,
    v: Map<u64, i32>,
    q: Map<u64, bool>,
    level: i32,
    i: u64,
)
    requires
        frontier_unstamped(v, q),
        i < n,
        v.contains_key(i),
    ensures
        bfs_rounds(a, n, v, q, level).contains_key(i),
        v[i] != 0 ==> bfs_rounds(a, n, v, q, level)[i] == v[i],
    decreases n + 1 - level,
{
    if 1 <= level <= n {
        lemma_round(a, n, v, q, level);
        let v2 = assign_result::<i32, bool>(v, n, Some(q), None, level, plain_desc());
        let q2 = vxm_result::<bool, i32>(
            q,
            n,
            Some(v2),
            None,
            q,
            a,
            OpKind::Lor,
            OpKind::Land,
            unvisited_desc(),
            n,
        );
        if reduce_upto(OpKind::Lor, false, q2, n as nat) && level < i32::MAX {
            lemma_rounds_keep(a, n, v2, q2, (level + 1) as i32, i);
        }
    }
}

/// Breadth-first levels from `source` over the adjacency matrix `a` (an edge
/// `i -> j` is a value at `(i, j)`): `source` gets level 1, each vertex first
/// reached in round `d` gets level `d`, and the unreached keep 0. It is
/// expressed entirely through the algebra: assignment under a mask, a
/// vector-matrix product over the or-and semiring under a complemented,
/// replacing mask, and an or-reduction to decide whether to go on.
pub fn bfs_levels(a: &SparseMatrix<bool>, source: u64) -> (r: SparseVector<i32>)
    requires
        a.wf(),
        a.spec_rows() == a.spec_cols(),
        source < a.spec_rows(),
        a.spec_rows() < i32::MAX,
    ensures
        r.wf(),
        r.spec_size() == a.spec_rows(),
        r@ == bfs_rounds(a@, a.spec_rows(), zeros(a.spec_rows()), map![source => true], 1),
        forall|i: u64| i < a.spec_rows() ==> #[trigger] r@.contains_key(i),
        r@[source] == 1,
{
    let n = a.rows();
    let mut v = SparseVector::<i32>::empty(n);
    let mut q = SparseVector::<bool>::empty(n);
    let default_desc = Descriptor::new();
    v.assign_all(None::<&SparseVector<bool>>, None, 0, n, &default_desc);
    assert(v@ =~= zeros(n));
    q.insert(source, true);
    assert(q@ =~= map![source => true]);
    let lor = SparseMonoid::<bool>::new(BinaryOp::lor(), false);
    let semi = Semiring::new(lor, BinaryOp::land());
    let desc = Descriptor::new().set(Field::Mask, Value::Complement).set(Field::Output, Value::Replace);
    let ghost start_v = v@;
    let ghost start_q = q@;
    proof {
        let an = a@;
        let v2 = assign_result::<i32, bool>(start_v, n, Some(start_q), None, 1, plain_desc());
        let q2 = vxm_result::<bool, i32>(
            start_q,
            n,
            Some(v2),
            None,
            start_q,
            an,
            OpKind::Lor,
            OpKind::Land,
            unvisited_desc(),
            n,
        );
        lemma_round(an, n, start_v, start_q, 1);
        assert(v2.contains_key(source) && v2[source] == 1);
        assert forall|i: u64| i < n implies #[trigger] bfs_rounds(an, n, start_v, start_q, 1).contains_key(
            i,
        ) by {
            lemma_rounds_keep(an, n, start_v, start_q, 1, i);
        }
        if reduce_upto(OpKind::Lor, false, q2, n as nat) && 1 < i32::MAX {
            lemma_rounds_keep(an, n, v2, q2, 2, source);
        }
    }
    let mut successor = true;
    let mut level: i32 = 1;
    while successor && level <= n as i32
        invariant
            a.wf(),
            a.spec_rows() == n,
            a.spec_cols() == n,
            n < i32::MAX,
            v.wf(),
            q.wf(),
            v.spec_size() == n,
            q.spec_size() == n,
            default_desc == plain_desc(),
            desc == unvisited_desc(),
            lor.spec_op() == OpKind::Lor,
            !lor.spec_identity(),
            semi.spec_add() == OpKind::Lor,
            semi.spec_multiply() == OpKind::Land,
            1 <= level <= n + 1,
            bfs_rounds(a@, n, start_v, start_q, 1) == (if successor {
                bfs_rounds(a@, n, v@, q@, level)
            } else {
                v@
            }),
        decreases n + 1 - level,
    {
        v.assign_all(Some(&q), None, level, n, &default_desc);
        q.vxm(Some(&v), None, a, &semi, &desc);
        q.reduce(&mut successor, None, &lor, &default_desc);
        level = level + 1;
    }
    v
}

} // verus!
