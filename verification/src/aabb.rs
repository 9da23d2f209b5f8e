//! Axis-aligned bounding boxes.

use vstd::prelude::*;
use crate::point::Point2;

verus! {

/// A box in the plane with its sides along the axes, from the corner `min` to
/// the corner `max`.
#[derive(PartialEq, Eq, Clone, Copy, Hash, Debug)]
pub struct Aabb2<S> {
    pub min: Point2<S>,
    pub max: Point2<S>,
}

impl<S> Aabb2<S> {
    /// The box between the two corners, which are taken as they are given.
    pub fn new(min: Point2<S>, max: Point2<S>) -> (r: Aabb2<S>)
        ensures
            r.min == min,
            r.max == max,
    {
        Aabb2 { min: min, max: max }
    }
}

} // verus!
