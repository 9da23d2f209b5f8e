//! Line segments

use vstd::prelude::*;
use crate::point::Point2;
use crate::point::Point3;

verus! {

/// A generic directed line segment from `origin` to `dest`.
///
/// The two ends may coincide: the segment is then a single point and its
/// direction is the zero vector.
#[derive(PartialEq, Eq, Clone, Copy, Hash, Debug)]
pub struct Line<P> {
    pub origin: P,
    pub dest: P,
}

impl<P> Line<P> {
    pub fn new(origin: P, dest: P) -> (r: Line<P>)
        ensures
            r.origin == origin,
            r.dest == dest,
    {
        Line { origin: origin, dest: dest }
    }
}

pub type Line2<S> = Line<Point2<S>>;

pub type Line3<S> = Line<Point3<S>>;

} // verus!
