//! Iteration state, per-iteration results, termination reasons, and the
//! error types surfaced by the solver.

use vstd::prelude::*;

verus! {

/// The objective abstraction failed to compute cost or gradient at a
/// point (for example, a domain violation in user code).
#[derive(Clone, Copy, Debug, PartialEq, Eq, Structural)]
pub struct EvaluationError;

/// The line-search strategy failed to find an acceptable step (for
/// example, it exceeded its own internal iteration budget).
#[derive(Clone, Copy, Debug, PartialEq, Eq, Structural)]
pub struct LineSearchError;

/// A failure of one iteration, identifying whether the objective or the
/// line search was the source. Propagated immediately to the caller with
/// no internal recovery.
#[derive(Clone, Copy, Debug, PartialEq, Eq, Structural)]
pub enum SolverError {
    /// Cost or gradient evaluation failed.
    Evaluation(EvaluationError),
    /// The line search failed to find an acceptable step.
    LineSearch(LineSearchError),
}

/// The outcome of a convergence check.
#[derive(Clone, Copy, Debug, PartialEq, Eq, Structural)]
pub enum TerminationReason {
    /// The gradient norm fell below the square root of machine epsilon.
    TargetPrecisionReached,
    /// The cost changed by less than machine epsilon between iterations.
    NoChangeInCost,
    /// No termination condition holds; the driver continues.
    NotTerminated,
}

/// A snapshot of the iteration state, created fresh by the driver at the
/// start of each iteration and never mutated in place.
#[derive(Debug)]
pub struct IterState<P, F> {
    /// The current parameter vector.
    pub cur_param: P,
    /// The cost at the current parameter.
    pub cur_cost: F,
    /// The gradient at the current parameter.
    pub cur_grad: P,
    /// The cost at the previous parameter.
    pub prev_cost: F,
}

/// What one iteration produces: the accepted parameter together with its
/// cost and gradient. The driver folds it into the next iteration state.
#[derive(Debug)]
pub struct IterData<P, F> {
    /// The parameter accepted by this iteration.
    pub param: P,
    /// The cost at that parameter.
    pub cost: F,
    /// The gradient at that parameter.
    pub grad: P,
}

} // verus!
