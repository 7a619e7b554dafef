//! Closed polylines given as a start point and a list of relative moves.
use vstd::prelude::*;

verus! {

/// A closed polyline: a move to `start`, then each relative line move in turn,
/// then a closing line back to `start`.
pub struct RelativePath {
    pub start: (i64, i64),
    pub moves: Vec<(i64, i64)>,
}

/// A relative move by `(dx, dy)`.
pub open spec fn off(dx: int, dy: int) -> (i64, i64) {
    (dx as i64, dy as i64)
}

/// `n` copies of `u`, one after the other.
pub open spec fn repeat<T>(u: Seq<T>, n: nat) -> Seq<T>
    decreases n,
{
    if n == 0 {
        Seq::empty()
    } else {
        repeat(u, (n - 1) as nat) + u
    }
}

/// Sum of all the moves of `s`, as a pair of integers.
pub open spec fn displacement(s: Seq<(i64, i64)>) -> (int, int)
    decreases s.len(),
{
    if s.len() == 0 {
        (0, 0)
    } else {
        let rest = displacement(s.drop_last());
        (rest.0 + s.last().0 as int, rest.1 + s.last().1 as int)
    }
}

pub proof fn lemma_repeat_len<T>(u: Seq<T>, n: nat)
    ensures
        repeat(u, n).len() == n * u.len(),
    decreases n,
{
    if n > 0 {
        lemma_repeat_len(u, (n - 1) as nat);
        assert(n * u.len() == (n - 1) * u.len() + u.len()) by (nonlinear_arith);
    } else {
        assert(n * u.len() == 0) by (nonlinear_arith)
            requires
                n == 0,
        ;
    }
}

pub proof fn lemma_displacement_concat(a: Seq<(i64, i64)>, b: Seq<(i64, i64)>)
    ensures
        displacement(a + b) == (displacement(a).0 + displacement(b).0, displacement(a).1
            + displacement(b).1),
    decreases b.len(),
{
    if b.len() > 0 {
        assert((a + b).drop_last() =~= a + b.drop_last());
        lemma_displacement_concat(a, b.drop_last());
    } else {
        assert(a + b =~= a);
    }
}

pub proof fn lemma_displacement_repeat(u: Seq<(i64, i64)>, n: nat)
    ensures
        displacement(repeat(u, n)) == (n * displacement(u).0, n * displacement(u).1),
    decreases n,
{
    if n > 0 {
        lemma_displacement_repeat(u, (n - 1) as nat);
        lemma_displacement_concat(repeat(u, (n - 1) as nat), u);
        assert(n * displacement(u).0 == (n - 1) * displacement(u).0 + displacement(u).0)
            by (nonlinear_arith);
        assert(n * displacement(u).1 == (n - 1) * displacement(u).1 + displacement(u).1)
            by (nonlinear_arith);
    } else {
        assert(repeat(u, n) =~= Seq::<(i64, i64)>::empty());
        assert(displacement(repeat(u, n)) == (0int, 0int));
    }
}

} // verus!
