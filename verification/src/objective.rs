//! The objective abstraction: cost and gradient evaluation at a point.

use vstd::prelude::*;

use crate::state::EvaluationError;

verus! {

/// An objective function over parameter vectors of type `P` with scalar
/// costs of type `F`.
///
/// The two spec functions model an implementation's evaluation as a pure
/// mathematical function of the point, including on which points it fails;
/// the executable methods are pinned to them. An evaluation failure (for
/// example, a point outside the objective's domain) is reported as an
/// [`EvaluationError`], never retried by the solver.
pub trait Objective<P, F>: Sized {
    /// The cost at `p`, or the failure evaluation reports there.
    spec fn cost_spec(self, p: P) -> Result<F, EvaluationError>;

    /// The gradient at `p`, or the failure evaluation reports there.
    spec fn gradient_spec(self, p: P) -> Result<P, EvaluationError>;

    fn cost(&self, p: &P) -> (r: Result<F, EvaluationError>)
        ensures
            r == (*self).cost_spec(*p),
    ;

    fn gradient(&self, p: &P) -> (r: Result<P, EvaluationError>)
        ensures
            r == (*self).gradient_spec(*p),
    ;
}

} // verus!
