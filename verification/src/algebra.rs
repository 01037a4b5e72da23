//! The vector and matrix algebra the solver requires of its parameter and
//! inverse-Hessian types.
//!
//! As in the scalar abstraction, every executable operation is pinned to an
//! uninterpreted per-implementation spec function: the solver's contracts
//! then state the exact algebraic dataflow of each iteration, whatever the
//! concrete representation (fixed-size arrays, dynamic vectors, ...).

use vstd::prelude::*;

verus! {

/// An n-dimensional vector over the scalar type `F`: a candidate point in
/// the optimization domain, or a gradient.
pub trait Vector<F>: Sized {
    /// The componentwise difference `self - other`.
    spec fn sub_spec(self, other: Self) -> Self;

    /// The componentwise negation `-self`.
    spec fn neg_spec(self) -> Self;

    /// The dot product `self · other`.
    spec fn dot_spec(self, other: Self) -> F;

    /// The vector's norm.
    spec fn norm_spec(self) -> F;

    fn sub(&self, other: &Self) -> (r: Self)
        ensures
            r == (*self).sub_spec(*other),
    ;

    fn neg(&self) -> (r: Self)
        ensures
            r == (*self).neg_spec(),
    ;

    fn dot(&self, other: &Self) -> (r: F)
        ensures
            r == (*self).dot_spec(*other),
    ;

    fn norm(&self) -> (r: F)
        ensures
            r == (*self).norm_spec(),
    ;
}

/// The outer product of two vectors, yielding a matrix of type `M`.
pub trait OuterProduct<M>: Sized {
    /// The outer product `self ⊗ other`.
    spec fn outer_spec(self, other: Self) -> M;

    fn outer(&self, other: &Self) -> (r: M)
        ensures
            r == (*self).outer_spec(*other),
    ;
}

/// An n×n matrix over the scalar type `F`, acting on vectors of type `P`:
/// the inverse-Hessian approximation.
pub trait Matrix<F, P>: Sized {
    /// The matrix-vector product `self · v`.
    spec fn matvec_spec(self, v: P) -> P;

    /// The elementwise sum `self + other`.
    spec fn add_spec(self, other: Self) -> Self;

    /// The matrix scaled elementwise by `k`.
    spec fn scale_spec(self, k: F) -> Self;

    fn matvec(&self, v: &P) -> (r: P)
        ensures
            r == (*self).matvec_spec(*v),
    ;

    fn add(&self, other: &Self) -> (r: Self)
        ensures
            r == (*self).add_spec(*other),
    ;

    fn scale(&self, k: &F) -> (r: Self)
        ensures
            r == (*self).scale_spec(*k),
    ;
}

} // verus!
