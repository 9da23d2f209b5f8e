//! Angles.

use vstd::prelude::*;
use crate::approx::ApproxEq;
use crate::approx::Epsilon;
use crate::approx::approx_eq_scalars;
use crate::num::abs_real;

verus! {

/// An angle, in radians.
#[derive(PartialEq, Eq, Clone, Copy, Hash, Debug)]
pub struct Rad<S> {
    pub s: S,
}

/// The angle of `s` radians.
#[inline]
pub fn rad<S>(s: S) -> (r: Rad<S>)
    ensures
        r.s == s,
{
    Rad { s }
}

/// Two angles are approximately equal where their numbers of radians are.
impl<S: Epsilon> ApproxEq<S> for Rad<S> {
    open spec fn approx_eq_spec(&self, other: &Self, eps: real) -> bool {
        abs_real(self.s.val() - other.s.val()) < eps
    }

    open spec fn approx_eq_fits(&self, other: &Self, eps: real) -> bool {
        S::holds(self.s.val() - other.s.val()) && S::holds(other.s.val() - self.s.val())
    }

    #[inline]
    fn approx_eq_eps(&self, other: &Rad<S>, epsilon: &S) -> (r: bool) {
        approx_eq_scalars(self.s, other.s, *epsilon)
    }
}

} // verus!
