//! Tests for parallel directions, between vectors, lines, rays and planes.
//!
//! A line stands for the vector from its origin to its end, a ray for its
//! direction and a plane for its normal. A direction is parallel to a plane
//! where it is perpendicular to the plane's normal, and two planes are
//! parallel where their normals are.

use vstd::prelude::*;
use crate::approx::Epsilon;
use crate::approx::epsilon;
use crate::line::Line2;
use crate::line::Line3;
use crate::model::{all_hold, vsub};
use crate::plane::Plane;
use crate::point::Point;
use crate::ray::Ray2;
use crate::ray::Ray3;
use crate::vector::{
    parallel_fits, parallel_fits2, parallel_fits3, parallel_within, parallel_within2,
    parallel_within3, perpendicular_fits, perpendicular_within, Vector, Vector2, Vector3, Vector4,
};

verus! {

/// Given two directions separated by an angle θ, tells whether abs(sin(θ))
/// is within a tolerance.
pub trait Parallel<T: Epsilon> {
    /// What the test decides for the tolerance `eps`.
    spec fn parallel_spec(&self, eps: real) -> bool;

    /// Whether `T` holds every number that the test computes on the way.
    spec fn parallel_fits_spec(&self, eps: real) -> bool;

    /// The test with the default tolerance of `T`.
    #[inline]
    fn is_parallel(&self) -> (r: bool)
        requires
            self.parallel_fits_spec(T::epsilon_val()),
        ensures
            r == self.parallel_spec(T::epsilon_val()),
    {
        let eps: T = epsilon();
        self.is_parallel_eps(&eps)
    }

    /// The test with the tolerance `epsilon`.
    fn is_parallel_eps(&self, epsilon: &T) -> (r: bool)
        requires
            self.parallel_fits_spec(epsilon.val()),
        ensures
            r == self.parallel_spec(epsilon.val()),
    ;
}

impl<S: Epsilon> Parallel<S> for (Vector2<S>, Vector2<S>) {
    open spec fn parallel_spec(&self, eps: real) -> bool {
        parallel_within2(self.0@, self.1@, eps)
    }

    open spec fn parallel_fits_spec(&self, eps: real) -> bool {
        &&& parallel_fits2::<S>(self.0@, self.1@, eps)
    }

    #[inline]
    fn is_parallel_eps(&self, epsilon: &S) -> (r: bool) {
        let a: Vector2<S> = self.0;
        let b: Vector2<S> = self.1;
        a.is_parallel_eps(&b, epsilon)
    }
}

impl<S: Epsilon> Parallel<S> for (Vector2<S>, Line2<S>) {
    open spec fn parallel_spec(&self, eps: real) -> bool {
        parallel_within2(self.0@, vsub(self.1.dest@, self.1.origin@), eps)
    }

    open spec fn parallel_fits_spec(&self, eps: real) -> bool {
        &&& all_hold::<S>(vsub(self.1.dest@, self.1.origin@))
        &&& parallel_fits2::<S>(self.0@, vsub(self.1.dest@, self.1.origin@), eps)
    }

    #[inline]
    fn is_parallel_eps(&self, epsilon: &S) -> (r: bool) {
        let a: Vector2<S> = self.0;
        let b: Vector2<S> = self.1.dest.sub_p(&self.1.origin);
        a.is_parallel_eps(&b, epsilon)
    }
}

impl<S: Epsilon> Parallel<S> for (Vector2<S>, Ray2<S>) {
    open spec fn parallel_spec(&self, eps: real) -> bool {
        parallel_within2(self.0@, self.1.direction@, eps)
    }

    open spec fn parallel_fits_spec(&self, eps: real) -> bool {
        &&& parallel_fits2::<S>(self.0@, self.1.direction@, eps)
    }

    #[inline]
    fn is_parallel_eps(&self, epsilon: &S) -> (r: bool) {
        let a: Vector2<S> = self.0;
        let b: Vector2<S> = self.1.direction;
        a.is_parallel_eps(&b, epsilon)
    }
}

impl<S: Epsilon> Parallel<S> for (Line2<S>, Vector2<S>) {
    open spec fn parallel_spec(&self, eps: real) -> bool {
        parallel_within2(vsub(self.0.dest@, self.0.origin@), self.1@, eps)
    }

    open spec fn parallel_fits_spec(&self, eps: real) -> bool {
        &&& all_hold::<S>(vsub(self.0.dest@, self.0.origin@))
        &&& parallel_fits2::<S>(vsub(self.0.dest@, self.0.origin@), self.1@, eps)
    }

    #[inline]
    fn is_parallel_eps(&self, epsilon: &S) -> (r: bool) {
        let a: Vector2<S> = self.0.dest.sub_p(&self.0.origin);
        let b: Vector2<S> = self.1;
        a.is_parallel_eps(&b, epsilon)
    }
}

impl<S: Epsilon> Parallel<S> for (Line2<S>, Line2<S>) {
    open spec fn parallel_spec(&self, eps: real) -> bool {
        parallel_within2(vsub(self.0.dest@, self.0.origin@), vsub(self.1.dest@, self.1.origin@), eps)
    }

    open spec fn parallel_fits_spec(&self, eps: real) -> bool {
        &&& all_hold::<S>(vsub(self.0.dest@, self.0.origin@))
        &&& all_hold::<S>(vsub(self.1.dest@, self.1.origin@))
        &&& parallel_fits2::<S>(vsub(self.0.dest@, self.0.origin@), vsub(self.1.dest@, self.1.origin@), eps)
    }

    #[inline]
    fn is_parallel_eps(&self, epsilon: &S) -> (r: bool) {
        let a: Vector2<S> = self.0.dest.sub_p(&self.0.origin);
        let b: Vector2<S> = self.1.dest.sub_p(&self.1.origin);
        a.is_parallel_eps(&b, epsilon)
    }
}

impl<S: Epsilon> Parallel<S> for (Line2<S>, Ray2<S>) {
    open spec fn parallel_spec(&self, eps: real) -> bool {
        parallel_within2(vsub(self.0.dest@, self.0.origin@), self.1.direction@, eps)
    }

    open spec fn parallel_fits_spec(&self, eps: real) -> bool {
        &&& all_hold::<S>(vsub(self.0.dest@, self.0.origin@))
        &&& parallel_fits2::<S>(vsub(self.0.dest@, self.0.origin@), self.1.direction@, eps)
    }

    #[inline]
    fn is_parallel_eps(&self, epsilon: &S) -> (r: bool) {
        let a: Vector2<S> = self.0.dest.sub_p(&self.0.origin);
        let b: Vector2<S> = self.1.direction;
        a.is_parallel_eps(&b, epsilon)
    }
}

impl<S: Epsilon> Parallel<S> for (Ray2<S>, Vector2<S>) {
    open spec fn parallel_spec(&self, eps: real) -> bool {
        parallel_within2(self.0.direction@, self.1@, eps)
    }

    open spec fn parallel_fits_spec(&self, eps: real) -> bool {
        &&& parallel_fits2::<S>(self.0.direction@, self.1@, eps)
    }

    #[inline]
    fn is_parallel_eps(&self, epsilon: &S) -> (r: bool) {
        let a: Vector2<S> = self.0.direction;
        let b: Vector2<S> = self.1;
        a.is_parallel_eps(&b, epsilon)
    }
}

impl<S: Epsilon> Parallel<S> for (Ray2<S>, Line2<S>) {
    open spec fn parallel_spec(&self, eps: real) -> bool {
        parallel_within2(self.0.direction@, vsub(self.1.dest@, self.1.origin@), eps)
    }

    open spec fn parallel_fits_spec(&self, eps: real) -> bool {
        &&& all_hold::<S>(vsub(self.1.dest@, self.1.origin@))
        &&& parallel_fits2::<S>(self.0.direction@, vsub(self.1.dest@, self.1.origin@), eps)
    }

    #[inline]
    fn is_parallel_eps(&self, epsilon: &S) -> (r: bool) {
        let a: Vector2<S> = self.0.direction;
        let b: Vector2<S> = self.1.dest.sub_p(&self.1.origin);
        a.is_parallel_eps(&b, epsilon)
    }
}

impl<S: Epsilon> Parallel<S> for (Ray2<S>, Ray2<S>) {
    open spec fn parallel_spec(&self, eps: real) -> bool {
        parallel_within2(self.0.direction@, self.1.direction@, eps)
    }

    open spec fn parallel_fits_spec(&self, eps: real) -> bool {
        &&& parallel_fits2::<S>(self.0.direction@, self.1.direction@, eps)
    }

    #[inline]
    fn is_parallel_eps(&self, epsilon: &S) -> (r: bool) {
        let a: Vector2<S> = self.0.direction;
        let b: Vector2<S> = self.1.direction;
        a.is_parallel_eps(&b, epsilon)
    }
}

impl<S: Epsilon> Parallel<S> for (Vector3<S>, Vector3<S>) {
    open spec fn parallel_spec(&self, eps: real) -> bool {
        parallel_within3(self.0@, self.1@, eps)
    }

    open spec fn parallel_fits_spec(&self, eps: real) -> bool {
        &&& parallel_fits3::<S>(self.0@, self.1@, eps)
    }

    #[inline]
    fn is_parallel_eps(&self, epsilon: &S) -> (r: bool) {
        let a: Vector3<S> = self.0;
        let b: Vector3<S> = self.1;
        a.is_parallel_eps(&b, epsilon)
    }
}

impl<S: Epsilon> Parallel<S> for (Vector3<S>, Line3<S>) {
    open spec fn parallel_spec(&self, eps: real) -> bool {
        parallel_within3(self.0@, vsub(self.1.dest@, self.1.origin@), eps)
    }

    open spec fn parallel_fits_spec(&self, eps: real) -> bool {
        &&& all_hold::<S>(vsub(self.1.dest@, self.1.origin@))
        &&& parallel_fits3::<S>(self.0@, vsub(self.1.dest@, self.1.origin@), eps)
    }

    #[inline]
    fn is_parallel_eps(&self, epsilon: &S) -> (r: bool) {
        let a: Vector3<S> = self.0;
        let b: Vector3<S> = self.1.dest.sub_p(&self.1.origin);
        a.is_parallel_eps(&b, epsilon)
    }
}

impl<S: Epsilon> Parallel<S> for (Vector3<S>, Ray3<S>) {
    open spec fn parallel_spec(&self, eps: real) -> bool {
        parallel_within3(self.0@, self.1.direction@, eps)
    }

    open spec fn parallel_fits_spec(&self, eps: real) -> bool {
        &&& parallel_fits3::<S>(self.0@, self.1.direction@, eps)
    }

    #[inline]
    fn is_parallel_eps(&self, epsilon: &S) -> (r: bool) {
        let a: Vector3<S> = self.0;
        let b: Vector3<S> = self.1.direction;
        a.is_parallel_eps(&b, epsilon)
    }
}

/// A vector and a plane are parallel where the one is perpendicular to the
/// normal of the other.
impl<S: Epsilon> Parallel<S> for (Vector3<S>, Plane<S>) {
    open spec fn parallel_spec(&self, eps: real) -> bool {
        perpendicular_within(self.0@, self.1.n@, eps)
    }

    open spec fn parallel_fits_spec(&self, eps: real) -> bool {
        &&& perpendicular_fits::<S>(self.0@, self.1.n@, eps)
    }

    #[inline]
    fn is_parallel_eps(&self, epsilon: &S) -> (r: bool) {
        let a: Vector3<S> = self.0;
        let b: Vector3<S> = self.1.n;
        a.is_perpendicular_eps(&b, epsilon)
    }
}

impl<S: Epsilon> Parallel<S> for (Line3<S>, Vector3<S>) {
    open spec fn parallel_spec(&self, eps: real) -> bool {
        parallel_within3(vsub(self.0.dest@, self.0.origin@), self.1@, eps)
    }

    open spec fn parallel_fits_spec(&self, eps: real) -> bool {
        &&& all_hold::<S>(vsub(self.0.dest@, self.0.origin@))
        &&& parallel_fits3::<S>(vsub(self.0.dest@, self.0.origin@), self.1@, eps)
    }

    #[inline]
    fn is_parallel_eps(&self, epsilon: &S) -> (r: bool) {
        let a: Vector3<S> = self.0.dest.sub_p(&self.0.origin);
        let b: Vector3<S> = self.1;
        a.is_parallel_eps(&b, epsilon)
    }
}

impl<S: Epsilon> Parallel<S> for (Line3<S>, Line3<S>) {
    open spec fn parallel_spec(&self, eps: real) -> bool {
        parallel_within3(vsub(self.0.dest@, self.0.origin@), vsub(self.1.dest@, self.1.origin@), eps)
    }

    open spec fn parallel_fits_spec(&self, eps: real) -> bool {
        &&& all_hold::<S>(vsub(self.0.dest@, self.0.origin@))
        &&& all_hold::<S>(vsub(self.1.dest@, self.1.origin@))
        &&& parallel_fits3::<S>(vsub(self.0.dest@, self.0.origin@), vsub(self.1.dest@, self.1.origin@), eps)
    }

    #[inline]
    fn is_parallel_eps(&self, epsilon: &S) -> (r: bool) {
        let a: Vector3<S> = self.0.dest.sub_p(&self.0.origin);
        let b: Vector3<S> = self.1.dest.sub_p(&self.1.origin);
        a.is_parallel_eps(&b, epsilon)
    }
}

impl<S: Epsilon> Parallel<S> for (Line3<S>, Ray3<S>) {
    open spec fn parallel_spec(&self, eps: real) -> bool {
        parallel_within3(vsub(self.0.dest@, self.0.origin@), self.1.direction@, eps)
    }

    open spec fn parallel_fits_spec(&self, eps: real) -> bool {
        &&& all_hold::<S>(vsub(self.0.dest@, self.0.origin@))
        &&& parallel_fits3::<S>(vsub(self.0.dest@, self.0.origin@), self.1.direction@, eps)
    }

    #[inline]
    fn is_parallel_eps(&self, epsilon: &S) -> (r: bool) {
        let a: Vector3<S> = self.0.dest.sub_p(&self.0.origin);
        let b: Vector3<S> = self.1.direction;
        a.is_parallel_eps(&b, epsilon)
    }
}

/// A line and a plane are parallel where the one is perpendicular to the
/// normal of the other.
impl<S: Epsilon> Parallel<S> for (Line3<S>, Plane<S>) {
    open spec fn parallel_spec(&self, eps: real) -> bool {
        perpendicular_within(vsub(self.0.dest@, self.0.origin@), self.1.n@, eps)
    }

    open spec fn parallel_fits_spec(&self, eps: real) -> bool {
        &&& all_hold::<S>(vsub(self.0.dest@, self.0.origin@))
        &&& perpendicular_fits::<S>(vsub(self.0.dest@, self.0.origin@), self.1.n@, eps)
    }

    #[inline]
    fn is_parallel_eps(&self, epsilon: &S) -> (r: bool) {
        let a: Vector3<S> = self.0.dest.sub_p(&self.0.origin);
        let b: Vector3<S> = self.1.n;
        a.is_perpendicular_eps(&b, epsilon)
    }
}

impl<S: Epsilon> Parallel<S> for (Ray3<S>, Vector3<S>) {
    open spec fn parallel_spec(&self, eps: real) -> bool {
        parallel_within3(self.0.direction@, self.1@, eps)
    }

    open spec fn parallel_fits_spec(&self, eps: real) -> bool {
        &&& parallel_fits3::<S>(self.0.direction@, self.1@, eps)
    }

    #[inline]
    fn is_parallel_eps(&self, epsilon: &S) -> (r: bool) {
        let a: Vector3<S> = self.0.direction;
        let b: Vector3<S> = self.1;
        a.is_parallel_eps(&b, epsilon)
    }
}

impl<S: Epsilon> Parallel<S> for (Ray3<S>, Line3<S>) {
    open spec fn parallel_spec(&self, eps: real) -> bool {
        parallel_within3(self.0.direction@, vsub(self.1.dest@, self.1.origin@), eps)
    }

    open spec fn parallel_fits_spec(&self, eps: real) -> bool {
        &&& all_hold::<S>(vsub(self.1.dest@, self.1.origin@))
        &&& parallel_fits3::<S>(self.0.direction@, vsub(self.1.dest@, self.1.origin@), eps)
    }

    #[inline]
    fn is_parallel_eps(&self, epsilon: &S) -> (r: bool) {
        let a: Vector3<S> = self.0.direction;
        let b: Vector3<S> = self.1.dest.sub_p(&self.1.origin);
        a.is_parallel_eps(&b, epsilon)
    }
}

impl<S: Epsilon> Parallel<S> for (Ray3<S>, Ray3<S>) {
    open spec fn parallel_spec(&self, eps: real) -> bool {
        parallel_within3(self.0.direction@, self.1.direction@, eps)
    }

    open spec fn parallel_fits_spec(&self, eps: real) -> bool {
        &&& parallel_fits3::<S>(self.0.direction@, self.1.direction@, eps)
    }

    #[inline]
    fn is_parallel_eps(&self, epsilon: &S) -> (r: bool) {
        let a: Vector3<S> = self.0.direction;
        let b: Vector3<S> = self.1.direction;
        a.is_parallel_eps(&b, epsilon)
    }
}

/// A ray and a plane are parallel where the one is perpendicular to the
/// normal of the other.
impl<S: Epsilon> Parallel<S> for (Ray3<S>, Plane<S>) {
    open spec fn parallel_spec(&self, eps: real) -> bool {
        perpendicular_within(self.0.direction@, self.1.n@, eps)
    }

    open spec fn parallel_fits_spec(&self, eps: real) -> bool {
        &&& perpendicular_fits::<S>(self.0.direction@, self.1.n@, eps)
    }

    #[inline]
    fn is_parallel_eps(&self, epsilon: &S) -> (r: bool) {
        let a: Vector3<S> = self.0.direction;
        let b: Vector3<S> = self.1.n;
        a.is_perpendicular_eps(&b, epsilon)
    }
}

/// A plane and a vector are parallel where the one is perpendicular to the
/// normal of the other.
impl<S: Epsilon> Parallel<S> for (Plane<S>, Vector3<S>) {
    open spec fn parallel_spec(&self, eps: real) -> bool {
        perpendicular_within(self.0.n@, self.1@, eps)
    }

    open spec fn parallel_fits_spec(&self, eps: real) -> bool {
        &&& perpendicular_fits::<S>(self.0.n@, self.1@, eps)
    }

    #[inline]
    fn is_parallel_eps(&self, epsilon: &S) -> (r: bool) {
        let a: Vector3<S> = self.0.n;
        let b: Vector3<S> = self.1;
        a.is_perpendicular_eps(&b, epsilon)
    }
}

/// A plane and a line are parallel where the one is perpendicular to the
/// normal of the other.
impl<S: Epsilon> Parallel<S> for (Plane<S>, Line3<S>) {
    open spec fn parallel_spec(&self, eps: real) -> bool {
        perpendicular_within(self.0.n@, vsub(self.1.dest@, self.1.origin@), eps)
    }

    open spec fn parallel_fits_spec(&self, eps: real) -> bool {
        &&& all_hold::<S>(vsub(self.1.dest@, self.1.origin@))
        &&& perpendicular_fits::<S>(self.0.n@, vsub(self.1.dest@, self.1.origin@), eps)
    }

    #[inline]
    fn is_parallel_eps(&self, epsilon: &S) -> (r: bool) {
        let a: Vector3<S> = self.0.n;
        let b: Vector3<S> = self.1.dest.sub_p(&self.1.origin);
        a.is_perpendicular_eps(&b, epsilon)
    }
}

/// A plane and a ray are parallel where the one is perpendicular to the
/// normal of the other.
impl<S: Epsilon> Parallel<S> for (Plane<S>, Ray3<S>) {
    open spec fn parallel_spec(&self, eps: real) -> bool {
        perpendicular_within(self.0.n@, self.1.direction@, eps)
    }

    open spec fn parallel_fits_spec(&self, eps: real) -> bool {
        &&& perpendicular_fits::<S>(self.0.n@, self.1.direction@, eps)
    }

    #[inline]
    fn is_parallel_eps(&self, epsilon: &S) -> (r: bool) {
        let a: Vector3<S> = self.0.n;
        let b: Vector3<S> = self.1.direction;
        a.is_perpendicular_eps(&b, epsilon)
    }
}

/// Two planes are parallel where their normals are.
impl<S: Epsilon> Parallel<S> for (Plane<S>, Plane<S>) {
    open spec fn parallel_spec(&self, eps: real) -> bool {
        parallel_within3(self.0.n@, self.1.n@, eps)
    }

    open spec fn parallel_fits_spec(&self, eps: real) -> bool {
        &&& parallel_fits3::<S>(self.0.n@, self.1.n@, eps)
    }

    #[inline]
    fn is_parallel_eps(&self, epsilon: &S) -> (r: bool) {
        let a: Vector3<S> = self.0.n;
        let b: Vector3<S> = self.1.n;
        a.is_parallel_eps(&b, epsilon)
    }
}

impl<S: Epsilon> Parallel<S> for (Vector4<S>, Vector4<S>) {
    open spec fn parallel_spec(&self, eps: real) -> bool {
        parallel_within(self.0@, self.1@, eps)
    }

    open spec fn parallel_fits_spec(&self, eps: real) -> bool {
        &&& parallel_fits::<S>(self.0@, self.1@, eps)
    }

    #[inline]
    fn is_parallel_eps(&self, epsilon: &S) -> (r: bool) {
        let a: Vector4<S> = self.0;
        let b: Vector4<S> = self.1;
        a.is_parallel_eps(&b, epsilon)
    }
}

} // verus!
