//! Spheres.

use vstd::prelude::*;
use crate::point::Point3;

verus! {

/// The sphere around `center` with the given `radius`.
#[derive(PartialEq, Eq, Clone, Copy, Hash, Debug)]
pub struct Sphere<S> {
    pub center: Point3<S>,
    pub radius: S,
}

impl<S> Sphere<S> {
    pub fn new(center: Point3<S>, radius: S) -> (r: Sphere<S>)
        ensures
            r.center == center,
            r.radius == radius,
    {
        Sphere { center: center, radius: radius }
    }
}

} // verus!
