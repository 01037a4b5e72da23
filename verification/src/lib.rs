//! An iterative solver for unconstrained, differentiable, multivariate
//! minimization problems using the Symmetric Rank-1 (SR1) quasi-Newton
//! method.
//!
//! The solver maintains an evolving approximation to the inverse Hessian
//! of the objective and uses it, together with a pluggable line-search
//! strategy, to compute successive parameter updates that converge toward
//! a local minimum.

pub mod algebra;
pub mod linesearch;
pub mod objective;
pub mod scalar;
pub mod sr1;
pub mod state;
