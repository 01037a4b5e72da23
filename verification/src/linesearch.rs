//! The line-search abstraction: the pluggable strategy the solver runs once
//! per outer iteration to pick a step length along the search direction.

use vstd::prelude::*;

use crate::scalar::Scalar;
use crate::state::LineSearchError;

verus! {

/// The accepted point of one line search together with its cost.
#[derive(Debug)]
pub struct LineSearchResult<P, F> {
    /// The accepted parameter.
    pub param: P,
    /// The cost at the accepted parameter.
    pub cost: F,
}

/// A line-search strategy over parameters `P`, scalars `F`, and objectives
/// `O`.
///
/// A strategy instance is a configuration template; each `search` call runs
/// one independent sub-problem to completion from the given fresh initial
/// conditions. The spec function models a run as a pure function of the
/// template, the objective, and the initial conditions; the executable
/// method is pinned to it and must additionally accept only points that are
/// no worse than the initial point under the cost function (a standard
/// step-acceptance guarantee — the exact acceptance rule is the strategy's
/// own responsibility).
pub trait LineSearch<P, F, O>: Sized where F: Scalar {
    /// The outcome of running this strategy on objective `op` from initial
    /// point `init_param` (with gradient `init_grad` and cost `init_cost`)
    /// along `direction`.
    spec fn search_spec(
        self,
        op: O,
        init_param: P,
        init_grad: P,
        init_cost: F,
        direction: P,
    ) -> Result<LineSearchResult<P, F>, LineSearchError>;

    fn search(
        &self,
        op: &O,
        init_param: &P,
        init_grad: &P,
        init_cost: F,
        direction: &P,
    ) -> (r: Result<LineSearchResult<P, F>, LineSearchError>)
        ensures
            r == (*self).search_spec(*op, *init_param, *init_grad, init_cost, *direction),
            (r matches Ok(out) ==> !init_cost.lt_spec(out.cost)),
    ;
}

} // verus!
