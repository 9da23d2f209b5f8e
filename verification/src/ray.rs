//! Rays: an origin and a direction, unbounded in that direction only.

use vstd::prelude::*;
use crate::point::Point2;
use crate::point::Point3;
use crate::vector::Vector2;
use crate::vector::Vector3;

verus! {

/// A ray from `origin` along `direction`.
///
/// The direction is not checked: with a zero direction the ray is a single
/// point, and the callers of the intersection tests answer for that.
#[derive(PartialEq, Eq, Clone, Copy, Hash, Debug)]
pub struct Ray<P, V> {
    pub origin: P,
    pub direction: V,
}

impl<P, V> Ray<P, V> {
    pub fn new(origin: P, direction: V) -> (r: Ray<P, V>)
        ensures
            r.origin == origin,
            r.direction == direction,
    {
        Ray { origin: origin, direction: direction }
    }
}

pub type Ray2<S> = Ray<Point2<S>, Vector2<S>>;

pub type Ray3<S> = Ray<Point3<S>, Vector3<S>>;

} // verus!
