//! The scalar abstraction: the real-number operations and tolerance
//! constants that the solver needs.
//!
//! Each executable operation is pinned to an uninterpreted per-implementation
//! spec function, so the solver's contracts state the exact dataflow of the
//! algorithm over whatever scalar semantics an implementation supplies
//! (typically machine floating point).

use vstd::prelude::*;

verus! {

/// A real-valued scalar: cost values, dot products, and tolerances.
///
/// Implementations supply the arithmetic together with the three tolerance
/// constants of the solver's policy: machine epsilon, its square root, and
/// the coefficient of the SR1 stability guard.
pub trait Scalar: Sized {
    /// The absolute value of `self`.
    spec fn abs_spec(self) -> Self;

    /// The difference `self - other`.
    spec fn sub_spec(self, other: Self) -> Self;

    /// The product `self * other`.
    spec fn mul_spec(self, other: Self) -> Self;

    /// The reciprocal `1 / self`.
    spec fn recip_spec(self) -> Self;

    /// Whether `self < other`.
    spec fn lt_spec(self, other: Self) -> bool;

    /// Whether `self >= other`. Kept independent of `lt_spec` so that
    /// implementations with incomparable values (floating-point NaN) are
    /// modelled faithfully.
    spec fn ge_spec(self, other: Self) -> bool;

    /// Machine epsilon: the tolerance on cost change at termination.
    spec fn epsilon_spec() -> Self;

    /// The square root of machine epsilon: the tolerance on the gradient
    /// norm at termination.
    spec fn sqrt_epsilon_spec() -> Self;

    /// The coefficient of the SR1 stability guard (canonically `1e-8`).
    spec fn stability_threshold_spec() -> Self;

    fn abs(&self) -> (r: Self)
        ensures
            r == (*self).abs_spec(),
    ;

    fn sub(&self, other: &Self) -> (r: Self)
        ensures
            r == (*self).sub_spec(*other),
    ;

    fn mul(&self, other: &Self) -> (r: Self)
        ensures
            r == (*self).mul_spec(*other),
    ;

    fn recip(&self) -> (r: Self)
        ensures
            r == (*self).recip_spec(),
    ;

    fn lt(&self, other: &Self) -> (r: bool)
        ensures
            r == (*self).lt_spec(*other),
    ;

    fn ge(&self, other: &Self) -> (r: bool)
        ensures
            r == (*self).ge_spec(*other),
    ;

    fn epsilon() -> (r: Self)
        ensures
            r == Self::epsilon_spec(),
    ;

    fn sqrt_epsilon() -> (r: Self)
        ensures
            r == Self::sqrt_epsilon_spec(),
    ;

    fn stability_threshold() -> (r: Self)
        ensures
            r == Self::stability_threshold_spec(),
    ;
}

} // verus!
