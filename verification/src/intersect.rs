//! Intersection tests. Each takes its shapes as a tuple and leaves them as
//! they are; where the shapes do not meet, the result is `None`.
//!
//! In all of them a plane with the normal `n` and the distance `d` is the
//! set `{x : n·x + d = 0}`, as `Plane::from_points` builds it.

use vstd::prelude::*;
use crate::aabb::Aabb2;
use crate::line::Line2;
use crate::model::{
    all_hold, cross3, cross_fits, dot_fits, dotp, len2, perp2, perp_fits, splat, vadd, vdiv, vneg,
    vscale, vsub,
};
use crate::num::BaseFloat;
use crate::num::BaseNum;
use crate::num::max_real;
use crate::num::min_real;
use crate::num::partial_max;
use crate::num::partial_min;
use crate::plane::Plane;
use crate::point::Point;
use crate::point::Point2;
use crate::point::Point3;
use crate::ray::Ray;
use crate::ray::Ray2;
use crate::ray::Ray3;
use crate::sphere::Sphere;
use crate::vector::Vector;
use crate::vector::Vector2;
use crate::vector::Vector3;

verus! {

/// A test for where the shapes of a tuple meet, given as a number or as a
/// shape: the parameter along a ray, or the line of two planes.
pub trait Intersect<R> {
    /// Whether the scalar type holds every number that the test computes.
    spec fn intersection_fits(&self) -> bool;

    /// Whether `r` is the result of the test on these shapes.
    spec fn is_intersection(&self, r: R) -> bool;

    fn intersection(&self) -> (r: R)
        requires
            self.intersection_fits(),
        ensures
            self.is_intersection(r),
    ;
}

/// A test for the point in which the shapes of a tuple meet.
pub trait IntersectPoint<R> {
    /// Whether the scalar type holds every number that the test computes.
    spec fn intersection_point_fits(&self) -> bool;

    /// Whether `r` is the result of the test on these shapes.
    spec fn is_intersection_point(&self, r: R) -> bool;

    fn intersection_point(&self) -> (r: R)
        requires
            self.intersection_point_fits(),
        ensures
            self.is_intersection_point(r),
    ;
}

/// The number of a scalar that may be absent.
pub open spec fn opt_val<S: BaseNum>(r: Option<S>) -> Option<real> {
    match r {
        Some(t) => Some(t.val()),
        None => None,
    }
}

/// The coordinates of a point of the plane that may be absent.
pub open spec fn opt_point2<S: BaseNum>(r: Option<Point2<S>>) -> Option<Seq<real>> {
    match r {
        Some(p) => Some(p@),
        None => None,
    }
}

/// The coordinates of a point of space that may be absent.
pub open spec fn opt_point3<S: BaseNum>(r: Option<Point3<S>>) -> Option<Seq<real>> {
    match r {
        Some(p) => Some(p@),
        None => None,
    }
}

/// The point `o + d * t`.
pub open spec fn point_at(o: Seq<real>, d: Seq<real>, t: real) -> Seq<real> {
    vadd(o, vscale(d, t))
}

// ---------------------------------------------------------------------------
// Ray and box
// ---------------------------------------------------------------------------

/// Where a ray that starts at `o` and moves by `d` along one axis enters the
/// slab between `lo` and `hi` on that axis.
pub open spec fn slab_entry(o: real, d: real, lo: real, hi: real) -> real {
    min_real((lo - o) / d, (hi - o) / d)
}

/// Where that ray leaves the slab.
pub open spec fn slab_exit(o: real, d: real, lo: real, hi: real) -> real {
    max_real((lo - o) / d, (hi - o) / d)
}

/// The last entry into a slab, over the axes along which the ray moves;
/// `None` where it moves along neither.
pub open spec fn box_entry(o: Seq<real>, d: Seq<real>, bmin: Seq<real>, bmax: Seq<real>) -> Option<
    real,
> {
    let ex = slab_entry(o[0], d[0], bmin[0], bmax[0]);
    let ey = slab_entry(o[1], d[1], bmin[1], bmax[1]);
    if d[0] != 0real && d[1] != 0real {
        Some(max_real(ex, ey))
    } else if d[0] != 0real {
        Some(ex)
    } else if d[1] != 0real {
        Some(ey)
    } else {
        None
    }
}

/// The first exit from a slab, over the axes along which the ray moves;
/// `None` where it moves along neither.
pub open spec fn box_exit(o: Seq<real>, d: Seq<real>, bmin: Seq<real>, bmax: Seq<real>) -> Option<
    real,
> {
    let ex = slab_exit(o[0], d[0], bmin[0], bmax[0]);
    let ey = slab_exit(o[1], d[1], bmin[1], bmax[1]);
    if d[0] != 0real && d[1] != 0real {
        Some(min_real(ex, ey))
    } else if d[0] != 0real {
        Some(ex)
    } else if d[1] != 0real {
        Some(ey)
    } else {
        None
    }
}

/// The slab test of a ray against a box. With `tmin` the last entry and
/// `tmax` the first exit: nothing where both are negative; else, where
/// `tmax >= tmin`, `tmin` if it is not negative and `tmax` if it is (the ray
/// starts inside the box); else nothing. An axis along which the ray does
/// not move is passed over, and a ray that does not move at all is
/// answered with `inf`.
pub open spec fn ray_box_hit(
    o: Seq<real>,
    d: Seq<real>,
    bmin: Seq<real>,
    bmax: Seq<real>,
    inf: real,
) -> Option<real> {
    match (box_entry(o, d, bmin, bmax), box_exit(o, d, bmin, bmax)) {
        (Some(tmin), Some(tmax)) => {
            if tmin < 0real && tmax < 0real {
                None
            } else if tmax >= tmin {
                if tmin >= 0real {
                    Some(tmin)
                } else {
                    Some(tmax)
                }
            } else {
                None
            }
        },
        _ => Some(inf),
    }
}

/// `S` can compute the two crossings of one slab.
pub open spec fn slab_fits<S: BaseNum>(o: real, d: real, lo: real, hi: real) -> bool {
    d != 0real ==> {
        &&& S::holds(lo - o)
        &&& S::holds(hi - o)
        &&& S::holds((lo - o) / d)
        &&& S::holds((hi - o) / d)
    }
}

/// `S` can compute the slab test.
pub open spec fn ray_box_fits<S: BaseNum>(
    o: Seq<real>,
    d: Seq<real>,
    bmin: Seq<real>,
    bmax: Seq<real>,
) -> bool {
    slab_fits::<S>(o[0], d[0], bmin[0], bmax[0]) && slab_fits::<S>(o[1], d[1], bmin[1], bmax[1])
}

impl<S: BaseFloat> Intersect<Option<S>> for (Ray2<S>, Aabb2<S>) {
    open spec fn intersection_fits(&self) -> bool {
        ray_box_fits::<S>(self.0.origin@, self.0.direction@, self.1.min@, self.1.max@)
    }

    open spec fn is_intersection(&self, r: Option<S>) -> bool {
        opt_val(r) == ray_box_hit(
            self.0.origin@,
            self.0.direction@,
            self.1.min@,
            self.1.max@,
            S::infinity_val(),
        )
    }

    fn intersection(&self) -> (r: Option<S>) {
        let ray = &self.0;
        let aabb = &self.1;
        let zero = S::zero();

        let mut tmin: Option<S> = None;
        let mut tmax: Option<S> = None;

        if !ray.direction.x.eq(zero) {
            let tx1 = aabb.min.x.sub(ray.origin.x).div(ray.direction.x);
            let tx2 = aabb.max.x.sub(ray.origin.x).div(ray.direction.x);
            tmin = Some(partial_min(tx1, tx2));
            tmax = Some(partial_max(tx1, tx2));
        }
        if !ray.direction.y.eq(zero) {
            let ty1 = aabb.min.y.sub(ray.origin.y).div(ray.direction.y);
            let ty2 = aabb.max.y.sub(ray.origin.y).div(ray.direction.y);
            let lo = partial_min(ty1, ty2);
            let hi = partial_max(ty1, ty2);
            tmin = Some(
                match tmin {
                    Some(t) => partial_max(t, lo),
                    None => lo,
                },
            );
            tmax = Some(
                match tmax {
                    Some(t) => partial_min(t, hi),
                    None => hi,
                },
            );
        }
        match (tmin, tmax) {
            (Some(tmin), Some(tmax)) => {
                if tmin.lt(zero) && tmax.lt(zero) {
                    None
                } else if tmin.le(tmax) {
                    if zero.le(tmin) {
                        Some(tmin)
                    } else {
                        Some(tmax)
                    }
                } else {
                    None
                }
            },
            _ => Some(S::infinity()),
        }
    }
}

/// `S` can compute the point `o + d * t` of the plane.
pub open spec fn point_at_fits<S: BaseNum>(o: Seq<real>, d: Seq<real>, t: real) -> bool {
    all_hold::<S>(vscale(d, t)) && all_hold::<S>(point_at(o, d, t))
}

impl<S: BaseFloat> IntersectPoint<Option<Point2<S>>> for (Ray2<S>, Aabb2<S>) {
    open spec fn intersection_point_fits(&self) -> bool {
        &&& self.intersection_fits()
        &&& match ray_box_hit(
            self.0.origin@,
            self.0.direction@,
            self.1.min@,
            self.1.max@,
            S::infinity_val(),
        ) {
            Some(t) => point_at_fits::<S>(self.0.origin@, self.0.direction@, t),
            None => true,
        }
    }

    open spec fn is_intersection_point(&self, r: Option<Point2<S>>) -> bool {
        opt_point2(r) == match ray_box_hit(
            self.0.origin@,
            self.0.direction@,
            self.1.min@,
            self.1.max@,
            S::infinity_val(),
        ) {
            Some(t) => Some(point_at(self.0.origin@, self.0.direction@, t)),
            None => None,
        }
    }

    fn intersection_point(&self) -> (r: Option<Point2<S>>) {
        let ray = &self.0;
        match self.intersection() {
            Some(t) => {
                proof {
                    let w = vscale(ray.direction@, t.val());
                    let p = point_at(ray.origin@, ray.direction@, t.val());
                    assert(w[0] == ray.direction.x.val() * t.val());
                    assert(w[1] == ray.direction.y.val() * t.val());
                    assert(p[0] == ray.origin.x.val() + w[0]);
                    assert(p[1] == ray.origin.y.val() + w[1]);
                }
                let p = Point2::new(
                    ray.origin.x.add(ray.direction.x.mul(t)),
                    ray.origin.y.add(ray.direction.y.mul(t)),
                );
                assert(p@ =~= point_at(ray.origin@, ray.direction@, t.val()));
                Some(p)
            },
            _ => None,
        }
    }
}

// ---------------------------------------------------------------------------
// Ray and segment
// ---------------------------------------------------------------------------

/// Where the ray from `p` along `r` meets the segment from `q` to `q2`.
///
/// With `s = q2 - q`: where `r⊥·s` is zero the two run in the same
/// direction. They are then apart, and do not meet, unless `(q - p)⊥·r` is
/// zero too; if it is, both lie on one line, and with the two ends of the
/// segment projected onto `r` the result is `p` where the projections are
/// on both sides of it, the nearer end where both are ahead, and nothing
/// where both are behind. Otherwise the two lines cross at the parameter
/// `t = (q - p)⊥·s / r⊥·s` of the ray and `u = (q - p)⊥·r / r⊥·s` of the
/// segment, and they meet where `t >= 0` and `0 <= u <= 1`.
pub open spec fn ray_segment_hit(p: Seq<real>, r: Seq<real>, q: Seq<real>, q2: Seq<real>) -> Option<
    Seq<real>,
> {
    let s = vsub(q2, q);
    let qmp = vsub(q, p);
    let cross_1 = perp2(r, s);
    let cross_2 = perp2(qmp, r);
    if cross_1 == 0real {
        if cross_2 != 0real {
            None
        } else {
            let dot_1 = dotp(qmp, r);
            let dot_2 = dotp(vsub(q2, p), r);
            if (dot_1 <= 0real && dot_2 >= 0real) || (dot_1 >= 0real && dot_2 <= 0real) {
                Some(p)
            } else if dot_1 >= 0real && dot_2 >= 0real {
                if dot_1 <= dot_2 {
                    Some(q)
                } else {
                    Some(q2)
                }
            } else {
                None
            }
        }
    } else {
        let t = perp2(qmp, s) / cross_1;
        let u = cross_2 / cross_1;
        if 0real <= t && u >= 0real && u <= 1real {
            Some(seq![p[0] + t * r[0], p[1] + t * r[1]])
        } else {
            None
        }
    }
}

/// `S` can compute the test of a ray against a segment.
pub open spec fn ray_segment_fits<S: BaseNum>(
    p: Seq<real>,
    r: Seq<real>,
    q: Seq<real>,
    q2: Seq<real>,
) -> bool {
    let s = vsub(q2, q);
    let qmp = vsub(q, p);
    let cross_1 = perp2(r, s);
    let cross_2 = perp2(qmp, r);
    let t = perp2(qmp, s) / cross_1;
    let u = cross_2 / cross_1;
    &&& all_hold::<S>(s)
    &&& all_hold::<S>(qmp)
    &&& perp_fits::<S>(r, s)
    &&& perp_fits::<S>(qmp, r)
    &&& (cross_1 == 0real && cross_2 == 0real ==> {
        &&& all_hold::<S>(vsub(q2, p))
        &&& dot_fits::<S>(qmp, r)
        &&& dot_fits::<S>(vsub(q2, p), r)
    })
    &&& (cross_1 != 0real ==> {
        &&& perp_fits::<S>(qmp, s)
        &&& S::holds(t)
        &&& S::holds(u)
        &&& (0real <= t && u >= 0real && u <= 1real ==> {
            &&& S::holds(t * r[0])
            &&& S::holds(t * r[1])
            &&& S::holds(p[0] + t * r[0])
            &&& S::holds(p[1] + t * r[1])
        })
    })
}

/// Determines if an intersection between a ray and a line segments is found.
impl<S: BaseNum> IntersectPoint<Option<Point2<S>>> for (Ray2<S>, Line2<S>) {
    open spec fn intersection_point_fits(&self) -> bool {
        ray_segment_fits::<S>(self.0.origin@, self.0.direction@, self.1.origin@, self.1.dest@)
    }

    open spec fn is_intersection_point(&self, r: Option<Point2<S>>) -> bool {
        opt_point2(r) == ray_segment_hit(
            self.0.origin@,
            self.0.direction@,
            self.1.origin@,
            self.1.dest@,
        )
    }

    fn intersection_point(&self) -> (res: Option<Point2<S>>) {
        let ray = &self.0;
        let line = &self.1;

        let p = ray.origin;
        let q = line.origin;
        let r = ray.direction;
        let s: Vector2<S> = line.dest.sub_p(&line.origin);
        let zero: S = S::zero();

        let cross_1 = r.perp_dot(&s);
        let qmp: Vector2<S> = q.sub_p(&p);
        let cross_2 = qmp.perp_dot(&r);

        if cross_1.eq(zero) {
            if !cross_2.eq(zero) {
                // parallel
                return None;
            }
            // collinear

            let q2mp: Vector2<S> = line.dest.sub_p(&p);
            let dot_1 = qmp.dot(&r);
            let dot_2 = q2mp.dot(&r);
            if (dot_1.le(zero) && zero.le(dot_2)) || (zero.le(dot_1) && dot_2.le(zero)) {
                return Some(p);
            } else if zero.le(dot_1) && zero.le(dot_2) {
                if dot_1.le(dot_2) {
                    return Some(q);
                } else {
                    return Some(line.dest);
                }
            }
            // no overlap exists

            return None;
        }
        let t = qmp.perp_dot(&s).div(cross_1);
        let u = cross_2.div(cross_1);

        if zero.le(t) && zero.le(u) && u.le(S::one()) {
            let hit = Point2::new(p.x.add(t.mul(r.x)), p.y.add(t.mul(r.y)));
            assert(hit@ =~= seq![p@[0] + t.val() * r@[0], p@[1] + t.val() * r@[1]]);
            return Some(hit);
        }
        return None;
    }
}

// ---------------------------------------------------------------------------
// Plane and ray
// ---------------------------------------------------------------------------

/// The parameter at which the ray from `o` along `dir` meets the plane
/// `{x : n·x + d = 0}`: `t = -(d + o·n) / (dir·n)`, where that is not
/// negative. A ray that runs along the plane, `dir·n = 0`, has no such
/// parameter, whether it lies in the plane or beside it.
pub open spec fn ray_plane_hit(n: Seq<real>, d: real, o: Seq<real>, dir: Seq<real>) -> Option<
    real,
> {
    let t = -(d + dotp(o, n)) / dotp(dir, n);
    if dotp(dir, n) == 0real || t < 0real {
        None
    } else {
        Some(t)
    }
}

/// `S` can compute the test of a ray against a plane.
pub open spec fn ray_plane_fits<S: BaseNum>(
    n: Seq<real>,
    d: real,
    o: Seq<real>,
    dir: Seq<real>,
) -> bool {
    &&& dot_fits::<S>(o, n)
    &&& S::holds(d + dotp(o, n))
    &&& S::holds(-(d + dotp(o, n)))
    &&& dot_fits::<S>(dir, n)
    &&& (dotp(dir, n) != 0real ==> S::holds(-(d + dotp(o, n)) / dotp(dir, n)))
}

impl<S: BaseNum> Intersect<Option<S>> for (Plane<S>, Ray3<S>) {
    open spec fn intersection_fits(&self) -> bool {
        ray_plane_fits::<S>(self.0.n@, self.0.d.val(), self.1.origin@, self.1.direction@)
    }

    open spec fn is_intersection(&self, r: Option<S>) -> bool {
        opt_val(r) == ray_plane_hit(
            self.0.n@,
            self.0.d.val(),
            self.1.origin@,
            self.1.direction@,
        )
    }

    fn intersection(&self) -> (res: Option<S>) {
        let p = &self.0;
        let r = &self.1;
        let numerator = p.d.add(r.origin.dot(&p.n)).neg();
        let denominator = r.direction.dot(&p.n);
        if denominator.eq(S::zero()) {
            return None;
        }
        let t = numerator.div(denominator);
        if t.lt(S::zero()) {
            None
        } else {
            Some(t)
        }
    }
}

impl<S: BaseNum> IntersectPoint<Option<Point3<S>>> for (Plane<S>, Ray3<S>) {
    open spec fn intersection_point_fits(&self) -> bool {
        &&& self.intersection_fits()
        &&& match ray_plane_hit(self.0.n@, self.0.d.val(), self.1.origin@, self.1.direction@) {
            Some(t) => point_at_fits::<S>(self.1.origin@, self.1.direction@, t),
            None => true,
        }
    }

    open spec fn is_intersection_point(&self, r: Option<Point3<S>>) -> bool {
        opt_point3(r) == match ray_plane_hit(
            self.0.n@,
            self.0.d.val(),
            self.1.origin@,
            self.1.direction@,
        ) {
            Some(t) => Some(point_at(self.1.origin@, self.1.direction@, t)),
            None => None,
        }
    }

    fn intersection_point(&self) -> (res: Option<Point3<S>>) {
        let r = &self.1;
        match self.intersection() {
            Some(t) => Some(r.origin.add_v(&r.direction.mul_s(t))),
            _ => None,
        }
    }
}

// ---------------------------------------------------------------------------
// Sphere and ray
// ---------------------------------------------------------------------------

/// Where the ray from `o` along `dir` enters the sphere around `c` with the
/// radius `radius`, with `root` the square root of the scalar type.
///
/// With `l = c - o`, `tca = l·dir` is the parameter at which the ray comes
/// nearest to the centre, and `d² = l·l - tca²` the squared distance there.
/// The ray misses where `tca < 0` or `d² > radius²`. Otherwise it enters at
/// `tca - thc`, with `thc = root(radius² - d²)` half the chord; a ray that
/// only touches the sphere, `d² = radius²`, enters at `tca - root(0)`. The
/// point at which it leaves is never given.
pub open spec fn ray_sphere_hit(
    c: Seq<real>,
    radius: real,
    o: Seq<real>,
    dir: Seq<real>,
    root: spec_fn(real) -> real,
) -> Option<Seq<real>> {
    let l = vsub(c, o);
    let tca = dotp(l, dir);
    let d2 = dotp(l, l) - tca * tca;
    if tca < 0real || d2 > radius * radius {
        None
    } else {
        Some(point_at(o, dir, tca - root(radius * radius - d2)))
    }
}

/// `S` can compute the test of a ray against a sphere.
pub open spec fn ray_sphere_fits<S: BaseFloat>(
    c: Seq<real>,
    radius: real,
    o: Seq<real>,
    dir: Seq<real>,
) -> bool {
    let l = vsub(c, o);
    let tca = dotp(l, dir);
    let d2 = dotp(l, l) - tca * tca;
    let thc = S::sqrt_val(radius * radius - d2);
    &&& all_hold::<S>(l)
    &&& dot_fits::<S>(l, dir)
    &&& (tca >= 0real ==> {
        &&& dot_fits::<S>(l, l)
        &&& S::holds(tca * tca)
        &&& S::holds(d2)
        &&& S::holds(radius * radius)
        &&& (d2 <= radius * radius ==> {
            &&& S::holds(radius * radius - d2)
            &&& S::holds(tca - thc)
            &&& point_at_fits::<S>(o, dir, tca - thc)
        })
    })
}

impl<S: BaseFloat> IntersectPoint<Option<Point3<S>>> for (Sphere<S>, Ray3<S>) {
    open spec fn intersection_point_fits(&self) -> bool {
        ray_sphere_fits::<S>(
            self.0.center@,
            self.0.radius.val(),
            self.1.origin@,
            self.1.direction@,
        )
    }

    open spec fn is_intersection_point(&self, r: Option<Point3<S>>) -> bool {
        opt_point3(r) == ray_sphere_hit(
            self.0.center@,
            self.0.radius.val(),
            self.1.origin@,
            self.1.direction@,
            |v: real| S::sqrt_val(v),
        )
    }

    fn intersection_point(&self) -> (res: Option<Point3<S>>) {
        let s = &self.0;
        let r = &self.1;
        let l = s.center.sub_p(&r.origin);
        let tca = l.dot(&r.direction);
        if tca.lt(S::zero()) {
            return None;
        }
        let d2 = l.dot(&l).sub(tca.mul(tca));
        if s.radius.mul(s.radius).lt(d2) {
            return None;
        }
        let thc = s.radius.mul(s.radius).sub(d2).sqrt();
        Some(r.origin.add_v(&r.direction.mul_s(tca.sub(thc))))
    }
}

// ---------------------------------------------------------------------------
// Plane and plane
// ---------------------------------------------------------------------------

/// The determinant of the system that gives a point on both of two planes
/// with the normals `n1` and `n2`: `|n1|²|n2|² - (n1·n2)²`. It is zero where
/// the normals are parallel, and only there.
pub open spec fn normals_det(n1: Seq<real>, n2: Seq<real>) -> real {
    len2(n1) * len2(n2) - dotp(n1, n2) * dotp(n1, n2)
}

/// The point `alpha * n1 + beta * n2` that lies on both of two planes
/// `{x : n1·x + d1 = 0}` and `{x : n2·x + d2 = 0}`:
/// `alpha = (d2 (n1·n2) - d1 |n2|²) / det` and
/// `beta = (d1 (n1·n2) - d2 |n1|²) / det`.
pub open spec fn point_on_both(n1: Seq<real>, d1: real, n2: Seq<real>, d2: real) -> Seq<real> {
    let det = normals_det(n1, n2);
    let alpha = (d2 * dotp(n1, n2) - d1 * len2(n2)) / det;
    let beta = (d1 * dotp(n1, n2) - d2 * len2(n1)) / det;
    vadd(vscale(n1, alpha), vscale(n2, beta))
}

/// The line in which two planes meet, as a point on it and its direction;
/// nothing where the normals are parallel. The direction is `n1 × n2`.
pub open spec fn plane_plane_line(n1: Seq<real>, d1: real, n2: Seq<real>, d2: real) -> Option<
    (Seq<real>, Seq<real>),
> {
    if normals_det(n1, n2) == 0real {
        None
    } else {
        Some((point_on_both(n1, d1, n2, d2), cross3(n1, n2)))
    }
}

/// `S` can compute the line in which two planes meet.
pub open spec fn plane_plane_fits<S: BaseNum>(
    n1: Seq<real>,
    d1: real,
    n2: Seq<real>,
    d2: real,
) -> bool {
    let l1 = len2(n1);
    let l2 = len2(n2);
    let d = dotp(n1, n2);
    let det = normals_det(n1, n2);
    let alpha = (d2 * d - d1 * l2) / det;
    let beta = (d1 * d - d2 * l1) / det;
    &&& dot_fits::<S>(n1, n1)
    &&& dot_fits::<S>(n2, n2)
    &&& dot_fits::<S>(n1, n2)
    &&& S::holds(l1 * l2)
    &&& S::holds(d * d)
    &&& S::holds(det)
    &&& (det != 0real ==> {
        &&& S::holds(d2 * d)
        &&& S::holds(d1 * l2)
        &&& S::holds(d2 * d - d1 * l2)
        &&& S::holds(alpha)
        &&& S::holds(d1 * d)
        &&& S::holds(d2 * l1)
        &&& S::holds(d1 * d - d2 * l1)
        &&& S::holds(beta)
        &&& all_hold::<S>(vscale(n1, alpha))
        &&& all_hold::<S>(vscale(n2, beta))
        &&& all_hold::<S>(point_on_both(n1, d1, n2, d2))
        &&& cross_fits::<S>(n1, n2)
    })
}

/// The origin and the direction of a ray that may be absent.
pub open spec fn opt_ray3<S: BaseNum>(r: Option<Ray3<S>>) -> Option<(Seq<real>, Seq<real>)> {
    match r {
        Some(ray) => Some((ray.origin@, ray.direction@)),
        None => None,
    }
}

/// The line in which two planes meet, given as a ray: a point of the line
/// and its direction. The line reaches both ways from that point.
impl<S: BaseNum> Intersect<Option<Ray3<S>>> for (Plane<S>, Plane<S>) {
    open spec fn intersection_fits(&self) -> bool {
        plane_plane_fits::<S>(self.0.n@, self.0.d.val(), self.1.n@, self.1.d.val())
    }

    open spec fn is_intersection(&self, r: Option<Ray3<S>>) -> bool {
        opt_ray3(r) == plane_plane_line(self.0.n@, self.0.d.val(), self.1.n@, self.1.d.val())
    }

    fn intersection(&self) -> (res: Option<Ray3<S>>) {
        let p1 = &self.0;
        let p2 = &self.1;
        let l1 = p1.n.length2();
        let l2 = p2.n.length2();
        let d = p1.n.dot(&p2.n);
        let det = l1.mul(l2).sub(d.mul(d));
        if det.eq(S::zero()) {
            return None;
        }
        let alpha = p2.d.mul(d).sub(p1.d.mul(l2)).div(det);
        let beta = p1.d.mul(d).sub(p2.d.mul(l1)).div(det);
        let origin: Point3<S> = Point3::from_vec(&p1.n.mul_s(alpha).add_v(&p2.n.mul_s(beta)));
        let direction = p1.n.cross(&p2.n);
        Some(Ray::new(origin, direction))
    }
}

// ---------------------------------------------------------------------------
// Three planes
// ---------------------------------------------------------------------------

/// The determinant of three normals: `n1 · (n2 × n3)`. It is zero where the
/// three planes have no single point in common.
pub open spec fn triple(n1: Seq<real>, n2: Seq<real>, n3: Seq<real>) -> real {
    dotp(n1, cross3(n2, n3))
}

/// `d1 (n2 × n3) + d2 (n3 × n1) + d3 (n1 × n2)`.
pub open spec fn weighted_crosses(
    n1: Seq<real>,
    d1: real,
    n2: Seq<real>,
    d2: real,
    n3: Seq<real>,
    d3: real,
) -> Seq<real> {
    vadd(
        vadd(vscale(cross3(n2, n3), d1), vscale(cross3(n3, n1), d2)),
        vscale(cross3(n1, n2), d3),
    )
}

/// The point in which three planes meet:
/// `-(d1 (n2 × n3) + d2 (n3 × n1) + d3 (n1 × n2)) / (n1 · (n2 × n3))`;
/// nothing where the determinant is zero.
pub open spec fn three_planes_point(
    n1: Seq<real>,
    d1: real,
    n2: Seq<real>,
    d2: real,
    n3: Seq<real>,
    d3: real,
) -> Option<Seq<real>> {
    let det = triple(n1, n2, n3);
    if det == 0real {
        None
    } else {
        Some(vdiv(vneg(weighted_crosses(n1, d1, n2, d2, n3, d3)), splat(3, det)))
    }
}

/// `S` can compute the point in which three planes meet.
pub open spec fn three_planes_fits<S: BaseNum>(
    n1: Seq<real>,
    d1: real,
    n2: Seq<real>,
    d2: real,
    n3: Seq<real>,
    d3: real,
) -> bool {
    let c23 = cross3(n2, n3);
    let c31 = cross3(n3, n1);
    let c12 = cross3(n1, n2);
    let det = triple(n1, n2, n3);
    let v = weighted_crosses(n1, d1, n2, d2, n3, d3);
    &&& cross_fits::<S>(n2, n3)
    &&& cross_fits::<S>(n3, n1)
    &&& cross_fits::<S>(n1, n2)
    &&& dot_fits::<S>(n1, c23)
    &&& (det != 0real ==> {
        &&& all_hold::<S>(vscale(c23, d1))
        &&& all_hold::<S>(vscale(c31, d2))
        &&& all_hold::<S>(vscale(c12, d3))
        &&& all_hold::<S>(vadd(vscale(c23, d1), vscale(c31, d2)))
        &&& all_hold::<S>(v)
        &&& all_hold::<S>(vneg(v))
        &&& all_hold::<S>(vdiv(vneg(v), splat(3, det)))
    })
}

/// The point in which three planes meet.
impl<S: BaseNum> IntersectPoint<Option<Point3<S>>> for (Plane<S>, Plane<S>, Plane<S>) {
    open spec fn intersection_point_fits(&self) -> bool {
        three_planes_fits::<S>(
            self.0.n@,
            self.0.d.val(),
            self.1.n@,
            self.1.d.val(),
            self.2.n@,
            self.2.d.val(),
        )
    }

    open spec fn is_intersection_point(&self, r: Option<Point3<S>>) -> bool {
        opt_point3(r) == three_planes_point(
            self.0.n@,
            self.0.d.val(),
            self.1.n@,
            self.1.d.val(),
            self.2.n@,
            self.2.d.val(),
        )
    }

    fn intersection_point(&self) -> (res: Option<Point3<S>>) {
        let p1 = &self.0;
        let p2 = &self.1;
        let p3 = &self.2;
        let c23 = p2.n.cross(&p3.n);
        let c31 = p3.n.cross(&p1.n);
        let c12 = p1.n.cross(&p2.n);
        let det = p1.n.dot(&c23);
        if det.eq(S::zero()) {
            return None;
        }
        let v: Vector3<S> = c23.mul_s(p1.d).add_v(&c31.mul_s(p2.d)).add_v(&c12.mul_s(p3.d));
        Some(Point3::from_vec(&v.neg().div_s(det)))
    }
}

} // verus!
