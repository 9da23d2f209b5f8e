#![allow(dead_code)]

use cgmath::{
    Aabb2, BaseFloat, BaseNum, Epsilon, Intersect, IntersectPoint, Line, Line2, Plane, Point2,
    Point3, Ray, Ray2, Ray3, Sphere, Vector2, Vector3,
};

/// A scalar of double precision, as a caller of the library would bring it.
#[derive(Clone, Copy, Debug, PartialEq, PartialOrd)]
struct F(f64);

impl BaseNum for F {
    fn zero() -> F {
        F(0.0)
    }

    fn one() -> F {
        F(1.0)
    }

    fn add(self, rhs: F) -> F {
        F(self.0 + rhs.0)
    }

    fn sub(self, rhs: F) -> F {
        F(self.0 - rhs.0)
    }

    fn mul(self, rhs: F) -> F {
        F(self.0 * rhs.0)
    }

    fn div(self, rhs: F) -> F {
        F(self.0 / rhs.0)
    }

    fn rem(self, rhs: F) -> F {
        F(self.0 % rhs.0)
    }

    fn neg(self) -> F {
        F(-self.0)
    }

    fn lt(self, rhs: F) -> bool {
        self.0 < rhs.0
    }

    fn le(self, rhs: F) -> bool {
        self.0 <= rhs.0
    }

    fn eq(self, rhs: F) -> bool {
        self.0 == rhs.0
    }
}

impl Epsilon for F {
    fn epsilon() -> F {
        F(1.0e-5)
    }
}

impl BaseFloat for F {
    fn sqrt(self) -> F {
        F(self.0.sqrt())
    }

    fn rsqrt(self) -> F {
        F(self.0.sqrt().recip())
    }

    fn tan(self) -> F {
        F(self.0.tan())
    }

    fn cot(self) -> F {
        F(self.0.tan().recip())
    }

    fn acos(self) -> F {
        F(self.0.acos())
    }

    fn atan2(self, x: F) -> F {
        F(self.0.atan2(x.0))
    }

    fn pi() -> F {
        F(std::f64::consts::PI)
    }

    fn infinity() -> F {
        F(f64::INFINITY)
    }
}

fn v2(x: f64, y: f64) -> Vector2<F> {
    Vector2::new(F(x), F(y))
}

fn v3(x: f64, y: f64, z: f64) -> Vector3<F> {
    Vector3::new(F(x), F(y), F(z))
}

fn p2(x: f64, y: f64) -> Point2<F> {
    Point2::new(F(x), F(y))
}

fn p3(x: f64, y: f64, z: f64) -> Point3<F> {
    Point3::new(F(x), F(y), F(z))
}

fn square() -> Aabb2<F> {
    Aabb2::new(p2(1.0, 1.0), p2(3.0, 3.0))
}

fn ray2(ox: f64, oy: f64, dx: f64, dy: f64) -> Ray2<F> {
    Ray::new(p2(ox, oy), v2(dx, dy))
}

fn seg(ox: f64, oy: f64, dx: f64, dy: f64) -> Line2<F> {
    Line::new(p2(ox, oy), p2(dx, dy))
}

#[test]
fn test_ray_box_from_outside() {
    // enters the x slab at 1 and the y slab at 0.5: the later entry counts
    assert_eq!((ray2(0.0, 0.0, 1.0, 2.0), square()).intersection(), Some(F(1.0)));
    assert_eq!((ray2(0.0, 0.0, 1.0, 2.0), square()).intersection_point(), Some(p2(1.0, 2.0)));
    assert_eq!((ray2(0.0, 2.0, 1.0, 0.0), square()).intersection(), Some(F(1.0)));
    assert_eq!((ray2(5.0, 2.0, -2.0, 0.0), square()).intersection(), Some(F(1.0)));
    assert_eq!((ray2(5.0, 2.0, -2.0, 0.0), square()).intersection_point(), Some(p2(3.0, 2.0)));
}

#[test]
fn test_ray_box_behind_or_beside() {
    // the box lies behind the ray
    assert_eq!((ray2(0.0, 0.0, -1.0, -2.0), square()).intersection(), None);
    assert_eq!((ray2(0.0, 0.0, -1.0, -2.0), square()).intersection_point(), None);
    // the slabs are crossed one after the other
    assert_eq!((ray2(0.0, 0.0, 1.0, 10.0), square()).intersection(), None);
    assert_eq!((ray2(0.0, 0.0, 10.0, 1.0), square()).intersection(), None);
}

#[test]
fn test_ray_box_from_inside() {
    // the entry lies behind the origin: the exit is given
    assert_eq!((ray2(2.0, 2.0, 1.0, 0.0), square()).intersection(), Some(F(1.0)));
    assert_eq!((ray2(2.0, 2.0, 1.0, 0.0), square()).intersection_point(), Some(p2(3.0, 2.0)));
    assert_eq!((ray2(2.0, 2.0, -1.0, -2.0), square()).intersection(), Some(F(0.5)));
}

#[test]
fn test_ray_box_on_the_boundary() {
    // starts on a side: the entry is zero
    assert_eq!((ray2(1.0, 2.0, 1.0, 0.0), square()).intersection(), Some(F(0.0)));
    // passes through a corner
    assert_eq!((ray2(0.0, 4.0, 1.0, -1.0), square()).intersection(), Some(F(1.0)));
}

#[test]
fn test_ray_box_axis_without_motion() {
    // an axis along which the ray does not move is passed over, whether or
    // not the ray lies between the sides of that axis
    assert_eq!((ray2(0.0, 2.0, 1.0, 0.0), square()).intersection(), Some(F(1.0)));
    assert_eq!((ray2(0.0, 7.0, 1.0, 0.0), square()).intersection(), Some(F(1.0)));
    assert_eq!((ray2(2.0, 0.0, 0.0, 2.0), square()).intersection(), Some(F(0.5)));
    // a ray that does not move at all
    assert_eq!((ray2(2.0, 2.0, 0.0, 0.0), square()).intersection(), Some(F(f64::INFINITY)));
}

#[test]
fn test_ray_segment_crossing() {
    let r = ray2(0.0, 0.0, 1.0, 1.0);
    assert_eq!((r, seg(0.0, 4.0, 4.0, 0.0)).intersection_point(), Some(p2(2.0, 2.0)));
    // the end of the segment counts
    assert_eq!((r, seg(3.0, 3.0, 3.0, 8.0)).intersection_point(), Some(p2(3.0, 3.0)));
    assert_eq!((r, seg(3.0, 8.0, 3.0, 3.0)).intersection_point(), Some(p2(3.0, 3.0)));
    // so does the origin of the ray
    assert_eq!((r, seg(-1.0, 1.0, 1.0, -1.0)).intersection_point(), Some(p2(0.0, 0.0)));
}

#[test]
fn test_ray_segment_missing() {
    let r = ray2(0.0, 0.0, 1.0, 1.0);
    // the lines cross behind the ray
    assert_eq!((r, seg(-4.0, 0.0, 0.0, -4.0)).intersection_point(), None);
    // the lines cross beyond the end of the segment
    assert_eq!((r, seg(0.0, 4.0, 1.0, 3.0)).intersection_point(), None);
    assert_eq!((r, seg(4.0, 0.0, 3.0, 1.0)).intersection_point(), None);
    // parallel and apart
    assert_eq!((r, seg(1.0, 0.0, 3.0, 2.0)).intersection_point(), None);
}

#[test]
fn test_ray_segment_on_one_line() {
    let r = ray2(1.0, 1.0, 2.0, 2.0);
    // the segment lies ahead: its nearer end
    assert_eq!((r, seg(3.0, 3.0, 5.0, 5.0)).intersection_point(), Some(p2(3.0, 3.0)));
    assert_eq!((r, seg(5.0, 5.0, 3.0, 3.0)).intersection_point(), Some(p2(3.0, 3.0)));
    // the origin of the ray lies on the segment
    assert_eq!((r, seg(0.0, 0.0, 5.0, 5.0)).intersection_point(), Some(p2(1.0, 1.0)));
    assert_eq!((r, seg(4.0, 4.0, -2.0, -2.0)).intersection_point(), Some(p2(1.0, 1.0)));
    assert_eq!((r, seg(1.0, 1.0, 2.0, 2.0)).intersection_point(), Some(p2(1.0, 1.0)));
    // the segment lies behind
    assert_eq!((r, seg(-3.0, -3.0, 0.0, 0.0)).intersection_point(), None);
}

#[test]
fn test_ray_segment_degenerate_segment() {
    let r = ray2(1.0, 1.0, 2.0, 2.0);
    // a segment of one point, on the ray and off it
    assert_eq!((r, seg(4.0, 4.0, 4.0, 4.0)).intersection_point(), Some(p2(4.0, 4.0)));
    assert_eq!((r, seg(4.0, 5.0, 4.0, 5.0)).intersection_point(), None);
}

#[test]
fn test_ray_segment_exact() {
    let r: Ray2<isize> = Ray::new(Point2::new(0, 0), Vector2::new(1, 1));
    // t = 2 along the ray, u = 0 along the segment
    let l: Line2<isize> = Line::new(Point2::new(2, 2), Point2::new(2, 7));
    assert_eq!((r, l).intersection_point(), Some(Point2::new(2, 2)));
    let l: Line2<isize> = Line::new(Point2::new(1, 0), Point2::new(3, 2));
    assert_eq!((r, l).intersection_point(), None);
}

#[test]
fn test_ray_plane_parameter() {
    let p = Plane::from_abcd(F(0.0), F(0.0), F(2.0), F(-8.0));
    let r: Ray3<F> = Ray::new(p3(1.0, 1.0, 1.0), v3(0.0, 0.0, 0.5));
    // t = -(d + o·n) / (dir·n) = -(-8 + 2) / 1
    assert_eq!((p, r).intersection(), Some(F(6.0)));
    assert_eq!((p, r).intersection_point(), Some(p3(1.0, 1.0, 4.0)));
    // the origin lies on the plane
    let r: Ray3<F> = Ray::new(p3(1.0, 1.0, 4.0), v3(0.0, 0.0, 0.5));
    assert_eq!((p, r).intersection(), Some(F(0.0)));
    // the plane lies behind
    let r: Ray3<F> = Ray::new(p3(1.0, 1.0, 1.0), v3(0.0, 0.0, -0.5));
    assert_eq!((p, r).intersection(), None);
    assert_eq!((p, r).intersection_point(), None);
}

#[test]
fn test_ray_plane_parallel() {
    let p = Plane::from_abcd(F(0.0), F(0.0), F(2.0), F(-8.0));
    // beside the plane, on either side, and in it
    for z in [1.0, 7.0, 4.0] {
        let r: Ray3<F> = Ray::new(p3(1.0, 1.0, z), v3(1.0, 0.0, 0.0));
        assert_eq!((p, r).intersection(), None);
        assert_eq!((p, r).intersection_point(), None);
    }
}

#[test]
fn test_ray_plane_exact() {
    let p = Plane::from_abcd(1isize, 0, 0, -7);
    let r: Ray3<isize> = Ray::new(Point3::new(2, 3, 4), Vector3::new(1, 1, 1));
    assert_eq!((p, r).intersection(), Some(5));
    assert_eq!((p, r).intersection_point(), Some(Point3::new(7, 8, 9)));
}

#[test]
fn test_ray_sphere_entry() {
    let s = Sphere::new(p3(0.0, 0.0, 10.0), F(2.0));
    let r: Ray3<F> = Ray::new(p3(0.0, 0.0, 0.0), v3(0.0, 0.0, 1.0));
    // only the point of entry is given
    assert_eq!((s, r).intersection_point(), Some(p3(0.0, 0.0, 8.0)));
    // off the axis: d² = 1, thc = sqrt(4 - 1)
    let r: Ray3<F> = Ray::new(p3(1.0, 0.0, 0.0), v3(0.0, 0.0, 1.0));
    assert_eq!((s, r).intersection_point(), Some(p3(1.0, 0.0, 10.0 - 3.0f64.sqrt())));
}

#[test]
fn test_ray_sphere_tangent() {
    let s = Sphere::new(p3(0.0, 0.0, 10.0), F(2.0));
    // d² == radius²: one point, at the nearest approach
    let r: Ray3<F> = Ray::new(p3(2.0, 0.0, 0.0), v3(0.0, 0.0, 1.0));
    assert_eq!((s, r).intersection_point(), Some(p3(2.0, 0.0, 10.0)));
    let r: Ray3<F> = Ray::new(p3(0.0, -2.0, 3.0), v3(0.0, 0.0, 1.0));
    assert_eq!((s, r).intersection_point(), Some(p3(0.0, -2.0, 10.0)));
}

#[test]
fn test_ray_sphere_missing() {
    let s = Sphere::new(p3(0.0, 0.0, 10.0), F(2.0));
    // passes beside the sphere
    let r: Ray3<F> = Ray::new(p3(2.5, 0.0, 0.0), v3(0.0, 0.0, 1.0));
    assert_eq!((s, r).intersection_point(), None);
    // the centre lies behind
    let r: Ray3<F> = Ray::new(p3(0.0, 0.0, 0.0), v3(0.0, 0.0, -1.0));
    assert_eq!((s, r).intersection_point(), None);
    let r: Ray3<F> = Ray::new(p3(0.0, 0.0, 11.0), v3(0.0, 0.0, 1.0));
    assert_eq!((s, r).intersection_point(), None);
}

#[test]
fn test_ray_sphere_from_inside() {
    let s = Sphere::new(p3(0.0, 0.0, 10.0), F(2.0));
    // the centre is ahead: the entry lies behind the origin and is given all the same
    let r: Ray3<F> = Ray::new(p3(0.0, 0.0, 9.0), v3(0.0, 0.0, 1.0));
    assert_eq!((s, r).intersection_point(), Some(p3(0.0, 0.0, 8.0)));
}

#[test]
fn test_plane_plane_line() {
    // the planes x = 1 and y = 2 meet in the line through (1, 2, 0) along z
    let a = Plane::from_abcd(1isize, 0, 0, -1);
    let b = Plane::from_abcd(0isize, 1, 0, -2);
    let r = (a, b).intersection().unwrap();
    assert_eq!(r.origin, Point3::new(1, 2, 0));
    assert_eq!(r.direction, Vector3::new(0, 0, 1));
    // in the other order the direction is reversed
    let r = (b, a).intersection().unwrap();
    assert_eq!(r.origin, Point3::new(1, 2, 0));
    assert_eq!(r.direction, Vector3::new(0, 0, -1));
}

#[test]
fn test_plane_plane_line_lies_in_both() {
    let a = Plane::from_abcd(F(1.0), F(2.0), F(3.0), F(-4.0));
    let b = Plane::from_abcd(F(-2.0), F(0.5), F(1.0), F(3.0));
    let r = (a, b).intersection().unwrap();
    assert_eq!(r.direction, v3(2.0 * 1.0 - 3.0 * 0.5, 3.0 * -2.0 - 1.0 * 1.0, 1.0 * 0.5 - 2.0 * -2.0));
    for t in [0.0, 1.0, -2.5, 100.0] {
        let x = r.origin.x.0 + r.direction.x.0 * t;
        let y = r.origin.y.0 + r.direction.y.0 * t;
        let z = r.origin.z.0 + r.direction.z.0 * t;
        assert!((x + 2.0 * y + 3.0 * z - 4.0).abs() < 1.0e-9);
        assert!((-2.0 * x + 0.5 * y + z + 3.0).abs() < 1.0e-9);
    }
}

#[test]
fn test_plane_plane_parallel() {
    let a = Plane::from_abcd(1isize, 0, 0, -1);
    // beside it, with a normal of another length and of the other sign
    assert_eq!((a, Plane::from_abcd(2isize, 0, 0, 5)).intersection(), None);
    assert_eq!((a, Plane::from_abcd(-3isize, 0, 0, 5)).intersection(), None);
    // the same plane
    assert_eq!((a, a).intersection(), None);
    let c = Plane::from_abcd(F(1.0), F(2.0), F(2.0), F(0.0));
    assert_eq!((c, Plane::from_abcd(F(0.5), F(1.0), F(1.0), F(7.0))).intersection(), None);
}

#[test]
fn test_three_planes_point() {
    // x = 1, y = 2 and z = 3
    let a = Plane::from_abcd(1isize, 0, 0, -1);
    let b = Plane::from_abcd(0isize, 1, 0, -2);
    let c = Plane::from_abcd(0isize, 0, 1, -3);
    assert_eq!((a, b, c).intersection_point(), Some(Point3::new(1, 2, 3)));
    assert_eq!((c, a, b).intersection_point(), Some(Point3::new(1, 2, 3)));
    assert_eq!((b, a, c).intersection_point(), Some(Point3::new(1, 2, 3)));
    // 2x = 4, y = 3 and z = 5: the determinant is 2
    let a = Plane::from_abcd(2isize, 0, 0, -4);
    let b = Plane::from_abcd(0isize, 1, 0, -3);
    let c = Plane::from_abcd(0isize, 0, 1, -5);
    assert_eq!((a, b, c).intersection_point(), Some(Point3::new(2, 3, 5)));
}

#[test]
fn test_three_planes_point_lies_on_all() {
    let planes = (
        Plane::from_abcd(F(1.0), F(2.0), F(3.0), F(-4.0)),
        Plane::from_abcd(F(-2.0), F(0.5), F(1.0), F(3.0)),
        Plane::from_abcd(F(0.0), F(1.0), F(-1.0), F(0.25)),
    );
    let p = planes.intersection_point().unwrap();
    for q in [planes.0, planes.1, planes.2] {
        let on = q.n.x.0 * p.x.0 + q.n.y.0 * p.y.0 + q.n.z.0 * p.z.0 + q.d.0;
        assert!(on.abs() < 1.0e-9);
    }
}

#[test]
fn test_three_planes_without_a_point() {
    let a = Plane::from_abcd(1isize, 0, 0, -1);
    let b = Plane::from_abcd(0isize, 1, 0, -2);
    // two of them parallel
    assert_eq!((a, b, Plane::from_abcd(2isize, 0, 0, 7)).intersection_point(), None);
    // the three normals in one plane: the planes meet in lines that never cross
    assert_eq!((a, b, Plane::from_abcd(1isize, 1, 0, 9)).intersection_point(), None);
    // or in one line
    assert_eq!((a, b, Plane::from_abcd(1isize, 1, 0, -3)).intersection_point(), None);
}

#[test]
fn test_intersection_leaves_the_shapes() {
    let b = square();
    let r = ray2(0.0, 0.0, 1.0, 2.0);
    let pair = (r, b);
    let first = pair.intersection();
    let second = pair.intersection();
    assert_eq!(first, second);
    assert_eq!(pair.0, r);
    assert_eq!(pair.1, b);
}
