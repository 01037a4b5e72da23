//! The SR1 quasi-Newton solver: direction computation, the rank-1
//! inverse-Hessian update with its numerical-stability guard, and the
//! termination policy.

use vstd::prelude::*;

use crate::algebra::{Matrix, OuterProduct, Vector};
use crate::linesearch::{LineSearch, LineSearchResult};
use crate::objective::Objective;
use crate::scalar::Scalar;
use crate::state::{IterData, IterState, SolverError, TerminationReason};

verus! {

/// The search direction `p = -(H · g)` computed from the inverse-Hessian
/// approximation `inv_hessian` and the current gradient `grad`.
pub open spec fn direction_spec<F, P, H>(inv_hessian: H, grad: P) -> P
    where P: Vector<F>, H: Matrix<F, P>
{
    inv_hessian.matvec_spec(grad).neg_spec()
}

/// The SR1 correction vector `v = s - H · y` for the step `s` and the
/// gradient difference `y`.
pub open spec fn correction_vector_spec<F, P, H>(inv_hessian: H, s: P, y: P) -> P
    where P: Vector<F>, H: Matrix<F, P>
{
    s.sub_spec(inv_hessian.matvec_spec(y))
}

/// The denominator `v · y` of the SR1 correction term.
pub open spec fn denominator_spec<F, P, H>(inv_hessian: H, s: P, y: P) -> F
    where P: Vector<F>, H: Matrix<F, P>
{
    correction_vector_spec(inv_hessian, s, y).dot_spec(y)
}

/// The numerical-stability guard of the SR1 update: the correction is
/// applied only when `|v · y| >= c · (s · s) · (v · v)`, where `c` is the
/// scalar type's stability-threshold coefficient. A denominator below that
/// scaled threshold would inject an unstable or wildly scaled correction.
pub open spec fn guard_passes_spec<F, P, H>(inv_hessian: H, s: P, y: P) -> bool
    where F: Scalar, P: Vector<F>, H: Matrix<F, P>
{
    let v = correction_vector_spec(inv_hessian, s, y);
    v.dot_spec(y).abs_spec().ge_spec(
        F::stability_threshold_spec().mul_spec(s.dot_spec(s)).mul_spec(v.dot_spec(v)),
    )
}

/// The inverse-Hessian approximation after one iteration with step `s` and
/// gradient difference `y`: `H + (v ⊗ v) · (1 / (v · y))` when the stability
/// guard passes, and `H` unchanged when it does not.
pub open spec fn updated_inv_hessian_spec<F, P, H>(inv_hessian: H, s: P, y: P) -> H
    where F: Scalar, P: Vector<F> + OuterProduct<H>, H: Matrix<F, P>
{
    let v = correction_vector_spec(inv_hessian, s, y);
    if guard_passes_spec(inv_hessian, s, y) {
        inv_hessian.add_spec(v.outer_spec(v).scale_spec(v.dot_spec(y).recip_spec()))
    } else {
        inv_hessian
    }
}

/// The termination policy, evaluated purely from the iteration state. The
/// gradient-norm check comes first: when both conditions hold,
/// target precision takes precedence over no change in cost.
pub open spec fn terminate_spec<F, P>(state: IterState<P, F>) -> TerminationReason
    where F: Scalar, P: Vector<F>
{
    if state.cur_grad.norm_spec().lt_spec(F::sqrt_epsilon_spec()) {
        TerminationReason::TargetPrecisionReached
    } else if state.prev_cost.sub_spec(state.cur_cost).abs_spec().lt_spec(F::epsilon_spec()) {
        TerminationReason::NoChangeInCost
    } else {
        TerminationReason::NotTerminated
    }
}

/// The SR1 solver: owns the evolving inverse-Hessian approximation and the
/// configured line-search strategy.
pub struct SR1<L, H> {
    /// Inverse-Hessian approximation.
    inv_hessian: H,
    /// Line-search strategy template.
    linesearch: L,
}

impl<L, H> SR1<L, H> {
    /// The solver's current inverse-Hessian approximation.
    pub closed spec fn inv_hessian_spec(self) -> H {
        self.inv_hessian
    }

    /// The solver's line-search strategy template.
    pub closed spec fn linesearch_spec(self) -> L {
        self.linesearch
    }

    /// Constructor: a solver ready for `init`, holding the given initial
    /// inverse-Hessian approximation (commonly the identity matrix) and
    /// line-search strategy.
    pub fn new(init_inverse_hessian: H, linesearch: L) -> (r: Self)
        ensures
            r.inv_hessian_spec() == init_inverse_hessian,
            r.linesearch_spec() == linesearch,
    {
        SR1 { inv_hessian: init_inverse_hessian, linesearch }
    }

    /// The current inverse-Hessian approximation, read-only.
    pub fn inv_hessian(&self) -> (r: &H)
        ensures
            *r == self.inv_hessian_spec(),
    {
        &self.inv_hessian
    }

    /// Dissolves the solver into its inverse-Hessian approximation and its
    /// line-search strategy.
    pub fn into_parts(self) -> (r: (H, L))
        ensures
            r.0 == self.inv_hessian_spec(),
            r.1 == self.linesearch_spec(),
    {
        (self.inv_hessian, self.linesearch)
    }

    /// Initialization: evaluates cost and gradient at the starting
    /// parameter of `state` and returns them with that parameter. Fails
    /// with an evaluation error if either evaluation fails (cost is
    /// evaluated first). The inverse-Hessian approximation is not touched.
    pub fn init<O, P, F>(&self, op: &O, state: IterState<P, F>) -> (r: Result<
        IterData<P, F>,
        SolverError,
    >)
        where O: Objective<P, F>,
        ensures
            (match (*op).cost_spec(state.cur_param) {
                Err(e) => r == Err::<IterData<P, F>, SolverError>(SolverError::Evaluation(e)),
                Ok(c) => match (*op).gradient_spec(state.cur_param) {
                    Err(e) => r == Err::<IterData<P, F>, SolverError>(SolverError::Evaluation(e)),
                    Ok(g) => r == Ok::<IterData<P, F>, SolverError>(
                        (IterData { param: state.cur_param, cost: c, grad: g }),
                    ),
                },
            }),
    {
        let IterState { cur_param, .. } = state;
        let cost = match op.cost(&cur_param) {
            Ok(c) => c,
            Err(e) => {
                return Err(SolverError::Evaluation(e));
            },
        };
        let grad = match op.gradient(&cur_param) {
            Ok(g) => g,
            Err(e) => {
                return Err(SolverError::Evaluation(e));
            },
        };
        Ok(IterData { param: cur_param, cost, grad })
    }

    /// One SR1 iteration: computes the search direction from the current
    /// inverse-Hessian approximation, runs the line search to completion,
    /// evaluates the gradient at the accepted point, and applies the
    /// guarded rank-1 update to the inverse-Hessian approximation.
    ///
    /// A line-search failure or an evaluation failure aborts the iteration
    /// with the corresponding error and leaves the inverse-Hessian
    /// approximation unchanged: no partial update is ever committed. On
    /// success, the accepted point's cost is no worse than the cost the
    /// iteration started from.
    pub fn next_iter<O, P, F>(&mut self, op: &O, state: IterState<P, F>) -> (r: Result<
        IterData<P, F>,
        SolverError,
    >)
        where
            F: Scalar,
            P: Vector<F> + OuterProduct<H>,
            H: Matrix<F, P>,
            O: Objective<P, F>,
            L: LineSearch<P, F, O>,
        ensures
            final(self).linesearch_spec() == old(self).linesearch_spec(),
            (match old(self).linesearch_spec().search_spec(
                *op,
                state.cur_param,
                state.cur_grad,
                state.cur_cost,
                direction_spec(old(self).inv_hessian_spec(), state.cur_grad),
            ) {
                Err(e) => {
                    &&& r == Err::<IterData<P, F>, SolverError>(SolverError::LineSearch(e))
                    &&& final(self).inv_hessian_spec() == old(self).inv_hessian_spec()
                },
                Ok(accepted) => match (*op).gradient_spec(accepted.param) {
                    Err(e) => {
                        &&& r == Err::<IterData<P, F>, SolverError>(SolverError::Evaluation(e))
                        &&& final(self).inv_hessian_spec() == old(self).inv_hessian_spec()
                    },
                    Ok(next_grad) => {
                        let y = next_grad.sub_spec(state.cur_grad);
                        let s = accepted.param.sub_spec(state.cur_param);
                        &&& r == Ok::<IterData<P, F>, SolverError>(
                            (IterData { param: accepted.param, cost: accepted.cost, grad: next_grad }),
                        )
                        &&& final(self).inv_hessian_spec() == updated_inv_hessian_spec(
                            old(self).inv_hessian_spec(),
                            s,
                            y,
                        )
                    },
                },
            }),
            (r matches Ok(data) ==> !state.cur_cost.lt_spec(data.cost)),
    {
        let IterState { cur_param, cur_cost, cur_grad, .. } = state;
        let hg = self.inv_hessian.matvec(&cur_grad);
        let p = hg.neg();
        let accepted = match self.linesearch.search(op, &cur_param, &cur_grad, cur_cost, &p) {
            Ok(out) => out,
            Err(e) => {
                return Err(SolverError::LineSearch(e));
            },
        };
        let LineSearchResult { param: next_param, cost: next_cost } = accepted;
        let next_grad = match op.gradient(&next_param) {
            Ok(g) => g,
            Err(e) => {
                return Err(SolverError::Evaluation(e));
            },
        };
        let y = next_grad.sub(&cur_grad);
        let s = next_param.sub(&cur_param);
        let hy = self.inv_hessian.matvec(&y);
        let v = s.sub(&hy);
        let numerator = v.outer(&v);
        let denominator = v.dot(&y);
        let s_mag = s.dot(&s);
        let v_mag = v.dot(&v);
        let threshold = F::stability_threshold().mul(&s_mag).mul(&v_mag);
        if denominator.abs().ge(&threshold) {
            let correction = numerator.scale(&denominator.recip());
            let updated = self.inv_hessian.add(&correction);
            self.inv_hessian = updated;
        }
        Ok(IterData { param: next_param, cost: next_cost, grad: next_grad })
    }

    /// Convergence check, evaluated purely from the iteration state with no
    /// side effects: target precision reached when the gradient norm is
    /// below the square root of machine epsilon; otherwise no change in
    /// cost when the cost changed by less than machine epsilon; otherwise
    /// not terminated.
    pub fn terminate<P, F>(&self, state: &IterState<P, F>) -> (r: TerminationReason)
        where F: Scalar, P: Vector<F>,
        ensures
            r == terminate_spec(*state),
    {
        if state.cur_grad.norm().lt(&F::sqrt_epsilon()) {
            return TerminationReason::TargetPrecisionReached;
        }
        if state.prev_cost.sub(&state.cur_cost).abs().lt(&F::epsilon()) {
            return TerminationReason::NoChangeInCost;
        }
        TerminationReason::NotTerminated
    }
}

/// Law: the convergence check returns "target precision reached" whenever
/// the gradient norm is below the square root of machine epsilon,
/// regardless of the cost values — it takes precedence over the
/// cost-change check.
pub proof fn lemma_terminate_target_precision<F, P>(state: IterState<P, F>)
    where F: Scalar, P: Vector<F>
    requires
        state.cur_grad.norm_spec().lt_spec(F::sqrt_epsilon_spec()),
    ensures
        terminate_spec(state) == TerminationReason::TargetPrecisionReached,
{
}

/// Law: the convergence check returns "no change in cost" whenever the
/// gradient-norm condition is false and the cost changed by less than
/// machine epsilon.
pub proof fn lemma_terminate_no_change_in_cost<F, P>(state: IterState<P, F>)
    where F: Scalar, P: Vector<F>
    requires
        !state.cur_grad.norm_spec().lt_spec(F::sqrt_epsilon_spec()),
        state.prev_cost.sub_spec(state.cur_cost).abs_spec().lt_spec(F::epsilon_spec()),
    ensures
        terminate_spec(state) == TerminationReason::NoChangeInCost,
{
}

/// Law: the SR1 update is skipped — the inverse-Hessian approximation is
/// exactly unchanged — whenever the denominator's absolute value is below
/// the scaled stability threshold.
pub proof fn lemma_update_skipped<F, P, H>(inv_hessian: H, s: P, y: P)
    where F: Scalar, P: Vector<F> + OuterProduct<H>, H: Matrix<F, P>
    requires
        !guard_passes_spec(inv_hessian, s, y),
    ensures
        updated_inv_hessian_spec(inv_hessian, s, y) == inv_hessian,
{
}

/// Law: when the stability guard passes, the new inverse-Hessian
/// approximation is exactly `H + (v ⊗ v) · (1 / (v · y))` for the
/// correction vector `v = s - H · y`.
pub proof fn lemma_update_applied<F, P, H>(inv_hessian: H, s: P, y: P)
    where F: Scalar, P: Vector<F> + OuterProduct<H>, H: Matrix<F, P>
    requires
        guard_passes_spec(inv_hessian, s, y),
    ensures
        ({
            let v = correction_vector_spec(inv_hessian, s, y);
            updated_inv_hessian_spec(inv_hessian, s, y) == inv_hessian.add_spec(
                v.outer_spec(v).scale_spec(v.dot_spec(y).recip_spec()),
            )
        }),
{
}

} // verus!
