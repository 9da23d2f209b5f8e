//! Rays and spheres.

use vstd::prelude::*;
use crate::intersect::{point_at, ray_sphere_hit};
use crate::model::{dotp, vsub};

verus! {

/// A ray that only touches a sphere meets it: where the squared distance of
/// the ray from the centre is the squared radius, and the centre is not
/// behind the ray, the result is the one point at the parameter
/// `tca - root(0)`, with `tca` the parameter of the nearest approach.
pub proof fn lemma_tangent_ray_meets_sphere(
    c: Seq<real>,
    radius: real,
    o: Seq<real>,
    dir: Seq<real>,
    root: spec_fn(real) -> real,
)
    requires
        dotp(vsub(c, o), dir) >= 0real,
        dotp(vsub(c, o), vsub(c, o)) - dotp(vsub(c, o), dir) * dotp(vsub(c, o), dir) == radius
            * radius,
    ensures
        ray_sphere_hit(c, radius, o, dir, root) == Some(
            point_at(o, dir, dotp(vsub(c, o), dir) - root(0real)),
        ),
{
}

} // verus!
