//! Tolerances and approximate equality.

use vstd::prelude::*;
use crate::num::BaseNum;
use crate::num::abs_real;

verus! {

/// A scalar type with a default tolerance.
pub trait Epsilon: BaseNum {
    /// The number of the default tolerance of this type.
    open spec fn epsilon_val() -> real {
        arbitrary()
    }

    /// The default tolerance of this type.
    fn epsilon() -> (r: Self)
        ensures
            r.val() == Self::epsilon_val(),
    ;
}

/// The default tolerance of the scalar type `T`.
#[inline(always)]
pub fn epsilon<T: Epsilon>() -> (r: T)
    ensures
        r.val() == T::epsilon_val(),
{
    T::epsilon()
}

/// Comparison up to a tolerance.
pub trait ApproxEq<T: Epsilon>: Sized {
    /// Whether `self` and `other` are equal up to the tolerance `eps`.
    spec fn approx_eq_spec(&self, other: &Self, eps: real) -> bool;

    /// Whether `T` holds every number that the comparison computes on the way.
    spec fn approx_eq_fits(&self, other: &Self, eps: real) -> bool;

    /// Compares with the default tolerance of `T`.
    #[inline]
    fn approx_eq(&self, other: &Self) -> (r: bool)
        requires
            self.approx_eq_fits(other, T::epsilon_val()),
        ensures
            r == self.approx_eq_spec(other, T::epsilon_val()),
    {
        let eps: T = epsilon();
        self.approx_eq_eps(other, &eps)
    }

    /// Compares with the tolerance `epsilon`.
    fn approx_eq_eps(&self, other: &Self, epsilon: &T) -> (r: bool)
        requires
            self.approx_eq_fits(other, epsilon.val()),
        ensures
            r == self.approx_eq_spec(other, epsilon.val()),
    ;
}

/// Integers are exact: their default tolerance is zero.
impl Epsilon for i32 {
    open spec fn epsilon_val() -> real {
        0real
    }

    #[inline]
    fn epsilon() -> (r: Self) {
        0
    }
}

/// Integers are exact: their default tolerance is zero.
impl Epsilon for i64 {
    open spec fn epsilon_val() -> real {
        0real
    }

    #[inline]
    fn epsilon() -> (r: Self) {
        0
    }
}

/// Integers are exact: their default tolerance is zero.
impl Epsilon for isize {
    open spec fn epsilon_val() -> real {
        0real
    }

    #[inline]
    fn epsilon() -> (r: Self) {
        0
    }
}

/// Whether `a` and `b` differ by less than `epsilon`.
pub fn approx_eq_scalars<S: BaseNum>(a: S, b: S, epsilon: S) -> (r: bool)
    requires
        S::holds(a.val() - b.val()),
        S::holds(b.val() - a.val()),
    ensures
        r == (abs_real(a.val() - b.val()) < epsilon.val()),
{
    crate::num::abs(a.sub(b)).lt(epsilon)
}

/// Two scalars are approximately equal where they differ by less than the
/// tolerance.
impl<S: Epsilon> ApproxEq<S> for S {
    open spec fn approx_eq_spec(&self, other: &Self, eps: real) -> bool {
        abs_real(self.val() - other.val()) < eps
    }

    open spec fn approx_eq_fits(&self, other: &Self, eps: real) -> bool {
        S::holds(self.val() - other.val()) && S::holds(other.val() - self.val())
    }

    #[inline]
    fn approx_eq_eps(&self, other: &Self, epsilon: &S) -> (r: bool) {
        approx_eq_scalars(*self, *other, *epsilon)
    }
}

} // verus!
