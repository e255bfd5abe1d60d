//! The discrete core of the Nelder-Mead simplex optimizer.
//!
//! The optimizer itself works on vectors of doubles, outside what the
//! verifier reasons about.  What is decided here, on plain comparison
//! outcomes and counters, is everything discrete about an iteration: which
//! move the simplex makes once the reflected point is evaluated, when the
//! iteration loop stops, and how many function evaluations a move costs.
//! The numerical driver asks these functions at every decision point.

use vstd::prelude::*;

verus! {

/// Bounds of a Nelder-Mead run: the evaluation and iteration caps and the
/// two termination tolerances (on the vertex values and on the vertex
/// coordinates).
#[derive(Debug, Clone, Copy, PartialEq)]
pub struct NelderMeadOptions<T> {
    pub max_fun_evals: usize,
    pub max_iter: usize,
    pub tol_fun: T,
    pub tol_x: T,
}

impl<T: Copy> NelderMeadOptions<T> {
    pub fn new(max_fun_evals: usize, max_iter: usize, tol_fun: T, tol_x: T) -> (r: Self)
        ensures
            r.max_fun_evals == max_fun_evals,
            r.max_iter == max_iter,
            r.tol_fun == tol_fun,
            r.tol_x == tol_x,
    {
        Self { max_fun_evals, max_iter, tol_fun, tol_x }
    }
}

/// Result of a Nelder-Mead run: the best vertex, its value, and how many
/// iterations and function evaluations were spent.
#[derive(Debug, Clone, PartialEq)]
pub struct NelderMeadResult<T> {
    pub x: Vec<T>,
    pub fval: T,
    pub iter: usize,
    pub fun_evals: usize,
}

/// The move an iteration makes after the reflected point is evaluated.
#[derive(Debug, Clone, Copy, PartialEq, Eq, Structural)]
pub enum SimplexMove {
    /// The reflected point beats the best vertex: evaluate the expanded
    /// point and replace the worst vertex with the better of the two.
    Expand,
    /// The reflected point beats the second-worst vertex (but not the
    /// best): it replaces the worst vertex outright.
    Reflect,
    /// The reflected point only beats the worst vertex: try the outside
    /// contraction, accepted when it is no worse than the reflected point.
    ContractOutside,
    /// The reflected point does not even beat the worst vertex: try the
    /// inside contraction, accepted when it beats the worst vertex.
    ContractInside,
}

/// Which move an iteration makes, from how the reflected point's value
/// compares against the sorted simplex: strictly below the best vertex,
/// the second-worst vertex, and the worst vertex.
pub fn choose_move(
    beats_best: bool,
    beats_second_worst: bool,
    beats_worst: bool,
) -> (r: SimplexMove)
    ensures
        r == SimplexMove::Expand <==> beats_best,
        r == SimplexMove::Reflect <==> (!beats_best && beats_second_worst),
        r == SimplexMove::ContractOutside <==> (!beats_best && !beats_second_worst
            && beats_worst),
        r == SimplexMove::ContractInside <==> (!beats_best && !beats_second_worst
            && !beats_worst),
{
    if beats_best {
        SimplexMove::Expand
    } else if beats_second_worst {
        SimplexMove::Reflect
    } else if beats_worst {
        SimplexMove::ContractOutside
    } else {
        SimplexMove::ContractInside
    }
}

/// Whether a contraction move falls back to shrinking the whole simplex:
/// exactly when its trial point was rejected.  The other moves never
/// shrink.
pub fn move_shrinks(mv: SimplexMove, trial_accepted: bool) -> (r: bool)
    ensures
        r <==> ((mv == SimplexMove::ContractOutside || mv == SimplexMove::ContractInside)
            && !trial_accepted),
{
    match mv {
        SimplexMove::ContractOutside | SimplexMove::ContractInside => !trial_accepted,
        _ => false,
    }
}

/// How many function evaluations one iteration spends: one for the
/// reflected point, one more for an expansion or contraction trial, and
/// `n` re-evaluations (the simplex dimension) when the simplex shrinks.
pub fn evals_added(mv: SimplexMove, shrank: bool, n: usize) -> (r: usize)
    requires
        n <= usize::MAX - 2,
    ensures
        mv == SimplexMove::Reflect ==> r == 1,
        mv == SimplexMove::Expand ==> r == 2,
        (mv == SimplexMove::ContractOutside || mv == SimplexMove::ContractInside) && !shrank
            ==> r == 2,
        (mv == SimplexMove::ContractOutside || mv == SimplexMove::ContractInside) && shrank
            ==> r == 2 + n,
{
    match mv {
        SimplexMove::Reflect => 1,
        SimplexMove::Expand => 2,
        SimplexMove::ContractOutside | SimplexMove::ContractInside => {
            if shrank {
                2 + n
            } else {
                2
            }
        },
    }
}

/// When the iteration loop stops: at the iteration cap, at the
/// function-evaluation cap, or once every vertex is within both
/// termination tolerances of the best one.  Hitting a cap is not an
/// error; the caller inspects the returned best value.
pub fn should_stop(
    iter: usize,
    fun_evals: usize,
    max_iter: usize,
    max_fun_evals: usize,
    within_tolerance: bool,
) -> (r: bool)
    ensures
        r <==> (iter >= max_iter || fun_evals >= max_fun_evals || within_tolerance),
{
    iter >= max_iter || fun_evals >= max_fun_evals || within_tolerance
}

} // verus!
