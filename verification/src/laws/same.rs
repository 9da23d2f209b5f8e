//! The same arguments give the same result.
//!
//! Most contracts of this crate give the result as a function of the
//! arguments, so that two calls on the same arguments cannot differ. The
//! intersection tests and the remainder state theirs as a relation between
//! the arguments and the result; what follows says that the relation leaves
//! no choice.

use vstd::prelude::*;
use crate::aabb::Aabb2;
use crate::intersect::{Intersect, IntersectPoint};
use crate::intersect::{opt_point2, opt_point3, opt_ray3, opt_val};
use crate::line::Line2;
use crate::num::{BaseFloat, BaseNum, abs_real, int_real, is_trunc_rem};
use crate::plane::Plane;
use crate::point::{Point2, Point3};
use crate::ray::{Ray2, Ray3};
use crate::sphere::Sphere;

verus! {

/// Two results of the test of one ray against one box are the same number.
pub proof fn lemma_ray_box_parameter_is_determined<S: BaseFloat>(
    shapes: (Ray2<S>, Aabb2<S>),
    r1: Option<S>,
    r2: Option<S>,
)
    requires
        shapes.is_intersection(r1),
        shapes.is_intersection(r2),
    ensures
        opt_val(r1) == opt_val(r2),
{
}

/// Two results of the test of one ray against one box are the same point.
pub proof fn lemma_ray_box_point_is_determined<S: BaseFloat>(
    shapes: (Ray2<S>, Aabb2<S>),
    r1: Option<Point2<S>>,
    r2: Option<Point2<S>>,
)
    requires
        shapes.is_intersection_point(r1),
        shapes.is_intersection_point(r2),
    ensures
        opt_point2(r1) == opt_point2(r2),
{
}

/// Two results of the test of one ray against one segment are the same
/// point.
pub proof fn lemma_ray_segment_point_is_determined<S: BaseNum>(
    shapes: (Ray2<S>, Line2<S>),
    r1: Option<Point2<S>>,
    r2: Option<Point2<S>>,
)
    requires
        shapes.is_intersection_point(r1),
        shapes.is_intersection_point(r2),
    ensures
        opt_point2(r1) == opt_point2(r2),
{
}

/// Two results of the test of one ray against one plane are the same
/// number.
pub proof fn lemma_ray_plane_parameter_is_determined<S: BaseNum>(
    shapes: (Plane<S>, Ray3<S>),
    r1: Option<S>,
    r2: Option<S>,
)
    requires
        shapes.is_intersection(r1),
        shapes.is_intersection(r2),
    ensures
        opt_val(r1) == opt_val(r2),
{
}

/// Two results of the test of one ray against one plane are the same point.
pub proof fn lemma_ray_plane_point_is_determined<S: BaseNum>(
    shapes: (Plane<S>, Ray3<S>),
    r1: Option<Point3<S>>,
    r2: Option<Point3<S>>,
)
    requires
        shapes.is_intersection_point(r1),
        shapes.is_intersection_point(r2),
    ensures
        opt_point3(r1) == opt_point3(r2),
{
}

/// Two results of the test of one ray against one sphere are the same
/// point.
pub proof fn lemma_ray_sphere_point_is_determined<S: BaseFloat>(
    shapes: (Sphere<S>, Ray3<S>),
    r1: Option<Point3<S>>,
    r2: Option<Point3<S>>,
)
    requires
        shapes.is_intersection_point(r1),
        shapes.is_intersection_point(r2),
    ensures
        opt_point3(r1) == opt_point3(r2),
{
}

/// Two results of the test of one plane against another are the same
/// line, given by the same point and the same direction.
pub proof fn lemma_plane_plane_line_is_determined<S: BaseNum>(
    shapes: (Plane<S>, Plane<S>),
    r1: Option<Ray3<S>>,
    r2: Option<Ray3<S>>,
)
    requires
        shapes.is_intersection(r1),
        shapes.is_intersection(r2),
    ensures
        opt_ray3(r1) == opt_ray3(r2),
{
}

/// Two results of the test of three planes are the same point.
pub proof fn lemma_three_planes_point_is_determined<S: BaseNum>(
    shapes: (Plane<S>, Plane<S>, Plane<S>),
    r1: Option<Point3<S>>,
    r2: Option<Point3<S>>,
)
    requires
        shapes.is_intersection_point(r1),
        shapes.is_intersection_point(r2),
    ensures
        opt_point3(r1) == opt_point3(r2),
{
}

/// The remainder of a division that rounds towards zero is determined by
/// the two numbers: two remainders of `a` by `b` are equal.
pub proof fn lemma_remainder_is_determined(a: real, b: real, r1: real, r2: real)
    requires
        b != 0real,
        is_trunc_rem(a, b, r1),
        is_trunc_rem(a, b, r2),
    ensures
        r1 == r2,
{
    let q1 = choose|q: int| #[trigger] int_real(q) * b == a - r1;
    let q2 = choose|q: int| #[trigger] int_real(q) * b == a - r2;
    let k = q1 - q2;
    let kr = int_real(k);
    assert(kr == int_real(q1) - int_real(q2));
    assert(kr * b == r2 - r1) by (nonlinear_arith)
        requires
            kr == int_real(q1) - int_real(q2),
            int_real(q1) * b == a - r1,
            int_real(q2) * b == a - r2,
    ;
    let d = r2 - r1;
    let m = abs_real(b);
    assert(-m < d < m);
    assert(-1real < kr < 1real) by (nonlinear_arith)
        requires
            kr * b == d,
            -m < d < m,
            m == (if b < 0real { -b } else { b }),
            b != 0real,
    ;
    assert(k == 0);
    assert(0real * b == 0real) by (nonlinear_arith);
}

} // verus!
