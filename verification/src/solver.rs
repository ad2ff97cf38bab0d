//! Conjugate gradient: what it computes, as a recurrence over the named
//! results of the vector space and the operator, and the solver itself.

use crate::column::Column;
use crate::operator::LinearOperator;
use crate::operator::PositiveDefinite;
use crate::operator::Symmetric;
use vstd::prelude::*;

verus! {

/// What a solve hands back.
pub struct Outcome<V> {
    /// The last iterate: the answer when `converged`, and the best effort
    /// the limit allowed otherwise.
    pub solution: V,
    /// The number of updates that led to `solution`. It is zero when the
    /// zero vector is the answer.
    pub iterations: usize,
    /// Whether the residual tracked with `solution` passed the tolerance
    /// test. When it did not, the limit was reached.
    pub converged: bool,
}

/// The three vectors the recurrence carries: the iterate `x`, the residual
/// `r` that is tracked alongside it, and the search direction `p`.
pub struct Iterate<V> {
    pub x: V,
    pub r: V,
    pub p: V,
}

/// The state before the first update: `x = 0`, `r = rhs - op * x`, `p = r`.
pub open spec fn initial<V: Column, A: LinearOperator<V>>(op: &A, rhs: &V) -> Iterate<V> {
    let x = V::zero(op.rows());
    let r = rhs.minus(&op.image(&x));
    Iterate { x, r, p: r }
}

/// One update of the recurrence:
/// `alpha = rᵗr / pᵗAp`, `x' = x + alpha p`, `r' = r - alpha Ap`,
/// `beta = r'ᵗr' / rᵗr`, `p' = r' + beta p`.
pub open spec fn step<V: Column, A: LinearOperator<V>>(op: &A, s: Iterate<V>) -> Iterate<V> {
    let rtr = s.r.inner(&s.r);
    let image = op.image(&s.p);
    let alpha = V::quotient(&rtr, &s.p.inner(&image));
    let x = s.x.plus_scaled(&alpha, &s.p);
    let r = s.r.minus_scaled(&alpha, &image);
    let beta = V::quotient(&r.inner(&r), &rtr);
    Iterate { x, r, p: r.plus_scaled(&beta, &s.p) }
}

/// The state after `k` updates.
pub open spec fn iterate_at<V: Column, A: LinearOperator<V>>(op: &A, rhs: &V, k: nat) -> Iterate<V>
    decreases k,
{
    if k == 0 {
        initial(op, rhs)
    } else {
        step(op, iterate_at(op, rhs, (k - 1) as nat))
    }
}

/// Whether the residual after `k` updates has no entry larger than `tol` in
/// absolute value.
pub open spec fn passes<V: Column, A: LinearOperator<V>>(
    op: &A,
    rhs: &V,
    tol: &V::Scalar,
    k: nat,
) -> bool {
    iterate_at(op, rhs, k).r.within(tol)
}

/// The first index from `k` on at which the solver stops: the residual
/// passes there, or the limit is reached.
pub open spec fn stop_from<V: Column, A: LinearOperator<V>>(
    op: &A,
    rhs: &V,
    tol: &V::Scalar,
    max_iter: nat,
    k: nat,
) -> nat
    decreases max_iter - k,
{
    if k >= max_iter || passes(op, rhs, tol, k) {
        k
    } else {
        stop_from(op, rhs, tol, max_iter, k + 1)
    }
}

/// The number of updates a solve performs.
pub open spec fn updates<V: Column, A: LinearOperator<V>>(
    op: &A,
    rhs: &V,
    tol: &V::Scalar,
    max_iter: nat,
) -> nat {
    stop_from(op, rhs, tol, max_iter, 0)
}

/// `out` is the outcome of solving `op * x = rhs` to tolerance `tol` with at
/// most `max_iter` updates.
pub open spec fn solves<V: Column, A: LinearOperator<V>>(
    op: &A,
    rhs: &V,
    tol: &V::Scalar,
    max_iter: nat,
    out: Outcome<V>,
) -> bool {
    &&& out.iterations == updates(op, rhs, tol, max_iter)
    &&& out.solution == iterate_at(op, rhs, out.iterations as nat).x
    &&& out.converged == passes(op, rhs, tol, out.iterations as nat)
}

/// The arithmetic of the space is exact for `op` and `rhs`: moving `x` along
/// `dir` moves the residual `rhs - op * x` along `op * dir`, by the same
/// factor and with no rounding.
pub open spec fn residual_update_is_exact<V: Column, A: LinearOperator<V>>(op: &A, rhs: &V) -> bool {
    forall|x: V, factor: V::Scalar, dir: V|
        rhs.minus(&op.image(&#[trigger] x.plus_scaled(&factor, &dir))) == rhs.minus(
            &op.image(&x),
        ).minus_scaled(&factor, &op.image(&dir))
}

/// The zero vector behaves as zero for `op` and `tol`: the operator maps it
/// to zero, it is its own difference, and it passes the tolerance test. This
/// holds of a tolerance that is not negative and an operator with finite
/// entries.
pub open spec fn zero_is_neutral<V: Column, A: LinearOperator<V>>(op: &A, tol: &V::Scalar) -> bool {
    let zero = V::zero(op.rows());
    &&& op.image(&zero) == zero
    &&& zero.minus(&zero) == zero
    &&& zero.within(tol)
}

/// From `k <= max_iter` on, the solver stops at an index between `k` and
/// `max_iter`. It stops short of `max_iter` only where the residual passes,
/// and no residual before the stop passes.
pub proof fn lemma_stop_bounds<V: Column, A: LinearOperator<V>>(
    op: &A,
    rhs: &V,
    tol: &V::Scalar,
    max_iter: nat,
    k: nat,
)
    requires
        k <= max_iter,
    ensures
        k <= stop_from(op, rhs, tol, max_iter, k) <= max_iter,
        stop_from(op, rhs, tol, max_iter, k) < max_iter ==> passes(
            op,
            rhs,
            tol,
            stop_from(op, rhs, tol, max_iter, k),
        ),
        forall|j: nat|
            k <= j < stop_from(op, rhs, tol, max_iter, k) ==> !#[trigger] passes(op, rhs, tol, j),
    decreases max_iter - k,
{
    if k < max_iter && !passes(op, rhs, tol, k) {
        lemma_stop_bounds(op, rhs, tol, max_iter, k + 1);
    }
}

/// Where the residual passes at `first`, at most `max_iter`, and at no index
/// from `k` up to it, the solver stops at `first`.
pub proof fn lemma_stop_at_first_pass<V: Column, A: LinearOperator<V>>(
    op: &A,
    rhs: &V,
    tol: &V::Scalar,
    max_iter: nat,
    k: nat,
    first: nat,
)
    requires
        k <= first <= max_iter,
        passes(op, rhs, tol, first),
        forall|j: nat| k <= j < first ==> !#[trigger] passes(op, rhs, tol, j),
    ensures
        stop_from(op, rhs, tol, max_iter, k) == first,
    decreases first - k,
{
    if k < first {
        lemma_stop_at_first_pass(op, rhs, tol, max_iter, k + 1, first);
    }
}

/// A solve never performs more than `max_iter` updates, and an outcome that
/// is not converged has performed all of them.
pub proof fn lemma_iterations_bounded<V: Column, A: LinearOperator<V>>(
    op: &A,
    rhs: &V,
    tol: &V::Scalar,
    max_iter: nat,
    out: Outcome<V>,
)
    requires
        solves(op, rhs, tol, max_iter, out),
    ensures
        out.iterations <= max_iter,
        !out.converged ==> out.iterations == max_iter,
{
    lemma_stop_bounds(op, rhs, tol, max_iter, 0);
}

/// The solution is the first iterate whose residual passes: a converged
/// outcome passes, and no earlier iterate did.
pub proof fn lemma_first_passing_iterate<V: Column, A: LinearOperator<V>>(
    op: &A,
    rhs: &V,
    tol: &V::Scalar,
    max_iter: nat,
    out: Outcome<V>,
)
    requires
        solves(op, rhs, tol, max_iter, out),
    ensures
        out.converged ==> iterate_at(op, rhs, out.iterations as nat).r.within(tol),
        forall|j: nat| j < out.iterations ==> !#[trigger] passes(op, rhs, tol, j),
{
    lemma_stop_bounds(op, rhs, tol, max_iter, 0);
}

/// When the initial residual already passes, the solve performs no update
/// and returns the zero vector, converged. With `max_iter == 0` it returns
/// the zero vector as well, converged or not.
pub proof fn lemma_zero_updates<V: Column, A: LinearOperator<V>>(
    op: &A,
    rhs: &V,
    tol: &V::Scalar,
    max_iter: nat,
    out: Outcome<V>,
)
    requires
        solves(op, rhs, tol, max_iter, out),
        max_iter == 0 || rhs.minus(&op.image(&V::zero(op.rows()))).within(tol),
    ensures
        out.iterations == 0,
        out.solution == V::zero(op.rows()),
        out.converged == rhs.minus(&op.image(&V::zero(op.rows()))).within(tol),
{
}

/// A zero right-hand side is answered at once: where zero behaves as zero,
/// the solve performs no update and returns the zero vector, converged.
pub proof fn lemma_zero_right_hand_side<V: Column, A: LinearOperator<V>>(
    op: &A,
    rhs: &V,
    tol: &V::Scalar,
    max_iter: nat,
    out: Outcome<V>,
)
    requires
        solves(op, rhs, tol, max_iter, out),
        *rhs == V::zero(op.rows()),
        zero_is_neutral(op, tol),
    ensures
        out.iterations == 0,
        out.solution == V::zero(op.rows()),
        out.converged,
{
}

/// In exact arithmetic the residual that the recurrence tracks is the
/// residual of its iterate: `r = rhs - op * x` after every update.
pub proof fn lemma_tracked_residual_is_residual<V: Column, A: LinearOperator<V>>(
    op: &A,
    rhs: &V,
    k: nat,
)
    requires
        residual_update_is_exact(op, rhs),
    ensures
        iterate_at(op, rhs, k).r == rhs.minus(&op.image(&iterate_at(op, rhs, k).x)),
    decreases k,
{
    if k > 0 {
        lemma_tracked_residual_is_residual(op, rhs, (k - 1) as nat);
        let s = iterate_at(op, rhs, (k - 1) as nat);
        let alpha = V::quotient(&s.r.inner(&s.r), &s.p.inner(&op.image(&s.p)));
        assert(iterate_at(op, rhs, k).x == s.x.plus_scaled(&alpha, &s.p));
    }
}

/// In exact arithmetic a converged solve returns a solution of the system
/// to within the tolerance: no entry of `rhs - op * x` is larger than `tol`
/// in absolute value.
pub proof fn lemma_converged_solution_is_within<V: Column, A: LinearOperator<V>>(
    op: &A,
    rhs: &V,
    tol: &V::Scalar,
    max_iter: nat,
    out: Outcome<V>,
)
    requires
        solves(op, rhs, tol, max_iter, out),
        out.converged,
        residual_update_is_exact(op, rhs),
    ensures
        rhs.minus(&op.image(&out.solution)).within(tol),
{
    lemma_tracked_residual_is_residual(op, rhs, out.iterations as nat);
}

/// If the residual passes after `k` updates and the limit allows `k`
/// updates, the solve converges, with at most `k` updates.
pub proof fn lemma_converges_by<V: Column, A: LinearOperator<V>>(
    op: &A,
    rhs: &V,
    tol: &V::Scalar,
    max_iter: nat,
    k: nat,
    out: Outcome<V>,
)
    requires
        solves(op, rhs, tol, max_iter, out),
        k <= max_iter,
        passes(op, rhs, tol, k),
    ensures
        out.converged,
        out.iterations <= k,
{
    lemma_stop_bounds(op, rhs, tol, max_iter, 0);
}

/// A larger limit does not change a converged outcome.
pub proof fn lemma_limit_irrelevant_once_converged<V: Column, A: LinearOperator<V>>(
    op: &A,
    rhs: &V,
    tol: &V::Scalar,
    max_iter: nat,
    larger: nat,
    out: Outcome<V>,
    other: Outcome<V>,
)
    requires
        solves(op, rhs, tol, max_iter, out),
        solves(op, rhs, tol, larger, other),
        out.converged,
        max_iter <= larger,
    ensures
        other == out,
{
    lemma_stop_bounds(op, rhs, tol, max_iter, 0);
    lemma_stop_at_first_pass(op, rhs, tol, larger, 0, out.iterations as nat);
}

/// Solving the same system twice gives the same outcome: the iterate, the
/// count and the flag are functions of the operator, the right-hand side,
/// the tolerance and the limit.
pub proof fn lemma_resolve_agrees<V: Column, A: LinearOperator<V>>(
    op: &A,
    rhs: &V,
    tol: &V::Scalar,
    max_iter: nat,
    first: Outcome<V>,
    second: Outcome<V>,
)
    requires
        solves(op, rhs, tol, max_iter, first),
        solves(op, rhs, tol, max_iter, second),
    ensures
        first == second,
{
}

/// Symmetric and positive-definite operators: the ones conjugate gradient
/// is meant for. Every operator with both capabilities has this one.
pub trait SymmetricPositiveDefinite<V: Column>: Symmetric<V> + PositiveDefinite<V> {
    /// Solves `self * x = rhs` for a square operator by unpreconditioned
    /// conjugate gradient. The solve starts from zero and stops at the first
    /// iterate whose tracked residual has no entry larger than `tol` in
    /// absolute value, or after `maxiter` updates; it then returns that
    /// iterate.
    ///
    /// No denominator is guarded. Where an inner product vanishes, the
    /// quotient is whatever the scalar field makes of it, and the recurrence
    /// goes on with that value.
    fn conjugate_gradient(self, rhs: V, tol: V::Scalar, maxiter: usize) -> (out: Outcome<V>)
        requires
            self.rows() == self.cols(),
            rhs.dim() == self.rows(),
        ensures
            solves(&self, &rhs, &tol, maxiter as nat, out),
            out.solution.dim() == self.rows(),
            out.iterations <= maxiter,
            out.converged || out.iterations == maxiter,
    {
        let mut x = rhs.zeros_like();
        let image = self.apply(&x);
        let mut residual = rhs.difference(&image);
        if residual.max_norm_within(&tol) {
            return Outcome { solution: x, iterations: 0, converged: true };
        }
        let mut p = residual.duplicate();
        let mut niter: usize = 0;
        while niter < maxiter
            invariant
                niter <= maxiter,
                self.rows() == self.cols(),
                x.dim() == self.rows(),
                residual.dim() == self.rows(),
                p.dim() == self.rows(),
                x == iterate_at(&self, &rhs, niter as nat).x,
                residual == iterate_at(&self, &rhs, niter as nat).r,
                p == iterate_at(&self, &rhs, niter as nat).p,
                !passes(&self, &rhs, &tol, niter as nat),
                stop_from(&self, &rhs, &tol, maxiter as nat, niter as nat) == updates(
                    &self,
                    &rhs,
                    &tol,
                    maxiter as nat,
                ),
            decreases maxiter - niter,
        {
            assert(stop_from(&self, &rhs, &tol, maxiter as nat, niter as nat) == stop_from(
                &self,
                &rhs,
                &tol,
                maxiter as nat,
                (niter + 1) as nat,
            ));
            let rtr = residual.dot(&residual);
            let image = self.apply(&p);
            let denominator = p.dot(&image);
            let alpha = V::divide(&rtr, &denominator);

            x = x.add_scaled(&alpha, &p);
            let image = self.apply(&p);
            residual = residual.sub_scaled(&alpha, &image);
            niter += 1;

            if residual.max_norm_within(&tol) {
                return Outcome { solution: x, iterations: niter, converged: true };
            }
            let next = residual.dot(&residual);
            let beta = V::divide(&next, &rtr);
            p = residual.add_scaled(&beta, &p);
        }
        Outcome { solution: x, iterations: niter, converged: false }
    }

    /// Solves as `conjugate_gradient` does when the operator is square and
    /// `rhs` has as many entries as the operator has rows, and refuses any
    /// other shape.
    fn try_conjugate_gradient(
        self,
        rhs: V,
        tol: V::Scalar,
        maxiter: usize,
    ) -> (out: Option<Outcome<V>>)
        ensures
            out.is_some() <==> self.rows() == self.cols() && rhs.dim() == self.rows(),
            out matches Some(found) ==> solves(&self, &rhs, &tol, maxiter as nat, found),
            out matches Some(found) ==> found.solution.dim() == self.rows(),
            out matches Some(found) ==> found.iterations <= maxiter,
            out matches Some(found) ==> found.converged || found.iterations == maxiter,
    {
        if self.nrows() == self.ncols() && rhs.len() == self.nrows() {
            Some(self.conjugate_gradient(rhs, tol, maxiter))
        } else {
            None
        }
    }
}

impl<V: Column, T: Symmetric<V> + PositiveDefinite<V>> SymmetricPositiveDefinite<V> for T {

}

} // verus!
