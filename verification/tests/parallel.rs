#![allow(dead_code)]

use cgmath::{
    BaseFloat, BaseNum, Epsilon, Line, Line2, Line3, Parallel, Plane, Point2, Point3, Ray, Ray2,
    Ray3, Vector2, Vector3, Vector4,
};

/// A scalar of double precision, as a caller of the library would bring it.
#[derive(Clone, Copy, Debug, PartialEq, PartialOrd)]
struct F(f64);

impl BaseNum for F {
    fn zero() -> F {
        F(0.0)
    }

    fn one() -> F {
        F(1.0)
    }

    fn add(self, rhs: F) -> F {
        F(self.0 + rhs.0)
    }

    fn sub(self, rhs: F) -> F {
        F(self.0 - rhs.0)
    }

    fn mul(self, rhs: F) -> F {
        F(self.0 * rhs.0)
    }

    fn div(self, rhs: F) -> F {
        F(self.0 / rhs.0)
    }

    fn rem(self, rhs: F) -> F {
        F(self.0 % rhs.0)
    }

    fn neg(self) -> F {
        F(-self.0)
    }

    fn lt(self, rhs: F) -> bool {
        self.0 < rhs.0
    }

    fn le(self, rhs: F) -> bool {
        self.0 <= rhs.0
    }

    fn eq(self, rhs: F) -> bool {
        self.0 == rhs.0
    }
}

impl Epsilon for F {
    fn epsilon() -> F {
        F(1.0e-5)
    }
}

impl BaseFloat for F {
    fn sqrt(self) -> F {
        F(self.0.sqrt())
    }

    fn rsqrt(self) -> F {
        F(self.0.sqrt().recip())
    }

    fn tan(self) -> F {
        F(self.0.tan())
    }

    fn cot(self) -> F {
        F(self.0.tan().recip())
    }

    fn acos(self) -> F {
        F(self.0.acos())
    }

    fn atan2(self, x: F) -> F {
        F(self.0.atan2(x.0))
    }

    fn pi() -> F {
        F(std::f64::consts::PI)
    }

    fn infinity() -> F {
        F(f64::INFINITY)
    }
}

fn v2(x: f64, y: f64) -> Vector2<F> {
    Vector2::new(F(x), F(y))
}

fn v3(x: f64, y: f64, z: f64) -> Vector3<F> {
    Vector3::new(F(x), F(y), F(z))
}

fn v4(x: f64, y: f64, z: f64, w: f64) -> Vector4<F> {
    Vector4::new(F(x), F(y), F(z), F(w))
}

fn p2(x: f64, y: f64) -> Point2<F> {
    Point2::new(F(x), F(y))
}

fn p3(x: f64, y: f64, z: f64) -> Point3<F> {
    Point3::new(F(x), F(y), F(z))
}

#[test]
fn test_parallel_in_the_plane() {
    let v = v2(1.0, 2.0);
    let w = v2(-3.0, -6.0);
    let u = v2(2.0, 1.0);
    let l: Line2<F> = Line::new(p2(5.0, 5.0), p2(7.0, 9.0));
    let m: Line2<F> = Line::new(p2(5.0, 5.0), p2(7.0, 6.0));
    let r: Ray2<F> = Ray::new(p2(-1.0, 0.0), v2(0.5, 1.0));
    let s: Ray2<F> = Ray::new(p2(-1.0, 0.0), v2(1.0, 0.5));

    assert!((v, w).is_parallel());
    assert!(!(v, u).is_parallel());
    assert!((v, l).is_parallel());
    assert!(!(v, m).is_parallel());
    assert!((v, r).is_parallel());
    assert!(!(v, s).is_parallel());

    assert!((l, v).is_parallel());
    assert!(!(m, v).is_parallel());
    assert!((l, l).is_parallel());
    assert!(!(l, m).is_parallel());
    assert!((l, r).is_parallel());
    assert!(!(l, s).is_parallel());

    assert!((r, v).is_parallel());
    assert!(!(s, v).is_parallel());
    assert!((r, l).is_parallel());
    assert!(!(r, m).is_parallel());
    assert!((r, r).is_parallel());
    assert!(!(r, s).is_parallel());
}

#[test]
fn test_parallel_in_space() {
    let v = v3(1.0, 2.0, 2.0);
    let u = v3(2.0, 1.0, 2.0);
    let l: Line3<F> = Line::new(p3(1.0, 1.0, 1.0), p3(3.0, 5.0, 5.0));
    let m: Line3<F> = Line::new(p3(1.0, 1.0, 1.0), p3(3.0, 2.0, 3.0));
    let r: Ray3<F> = Ray::new(p3(0.0, 0.0, 9.0), v3(-0.5, -1.0, -1.0));
    let s: Ray3<F> = Ray::new(p3(0.0, 0.0, 9.0), v3(-1.0, -0.5, -1.0));

    assert!((v, v).is_parallel());
    assert!(!(v, u).is_parallel());
    assert!((v, l).is_parallel());
    assert!(!(v, m).is_parallel());
    assert!((v, r).is_parallel());
    assert!(!(v, s).is_parallel());

    assert!((l, v).is_parallel());
    assert!(!(l, u).is_parallel());
    assert!((l, l).is_parallel());
    assert!(!(l, m).is_parallel());
    assert!((l, r).is_parallel());
    assert!(!(l, s).is_parallel());

    assert!((r, v).is_parallel());
    assert!(!(r, u).is_parallel());
    assert!((r, l).is_parallel());
    assert!(!(r, m).is_parallel());
    assert!((r, r).is_parallel());
    assert!(!(r, s).is_parallel());
}

#[test]
fn test_parallel_to_a_plane() {
    // a direction is parallel to a plane where it is perpendicular to the normal
    let floor = Plane::from_abcd(F(0.0), F(0.0), F(2.0), F(1.0));
    let along = v3(3.0, -4.0, 0.0);
    let up = v3(0.0, 0.0, 5.0);
    let l: Line3<F> = Line::new(p3(1.0, 1.0, 1.0), p3(4.0, -3.0, 1.0));
    let m: Line3<F> = Line::new(p3(1.0, 1.0, 1.0), p3(1.0, 1.0, 6.0));
    let r: Ray3<F> = Ray::new(p3(0.0, 0.0, 9.0), along);
    let s: Ray3<F> = Ray::new(p3(0.0, 0.0, 9.0), up);

    assert!((along, floor).is_parallel());
    assert!(!(up, floor).is_parallel());
    assert!((floor, along).is_parallel());
    assert!(!(floor, up).is_parallel());
    assert!((l, floor).is_parallel());
    assert!(!(m, floor).is_parallel());
    assert!((floor, l).is_parallel());
    assert!(!(floor, m).is_parallel());
    assert!((r, floor).is_parallel());
    assert!(!(s, floor).is_parallel());
    assert!((floor, r).is_parallel());
    assert!(!(floor, s).is_parallel());

    // two planes are parallel where their normals are
    let ceiling = Plane::from_abcd(F(0.0), F(0.0), F(-1.0), F(7.0));
    let wall = Plane::from_abcd(F(1.0), F(0.0), F(0.0), F(1.0));
    assert!((floor, ceiling).is_parallel());
    assert!(!(floor, wall).is_parallel());
}

#[test]
fn test_parallel_in_four_dimensions() {
    assert!((v4(1.0, 2.0, 3.0, 4.0), v4(-2.0, -4.0, -6.0, -8.0)).is_parallel());
    assert!(!(v4(1.0, 2.0, 3.0, 4.0), v4(-2.0, -4.0, -6.0, 8.0)).is_parallel());
}

#[test]
fn test_parallel_with_a_tolerance() {
    let v = v2(1.0, 0.0);
    let w = v2(7.0, 1.0);
    // (v⊥·w)² = 1 and |v|²|w|² = 50
    assert!(!(v, w).is_parallel());
    assert!(!(v, w).is_parallel_eps(&F(0.125)));
    assert!((v, w).is_parallel_eps(&F(0.25)));
    let r: Ray2<F> = Ray::new(p2(0.0, 0.0), w);
    assert!(!(v, r).is_parallel_eps(&F(0.125)));
    assert!((v, r).is_parallel_eps(&F(0.25)));
    // (a·b)² = 1 and |a|²|b|² is a little over 51
    let wall = Plane::from_abcd(F(1.0), F(7.0), F(0.0), F(0.0));
    let dir = v3(0.0, 1.0 / 7.0, 1.0);
    assert!(!(dir, wall).is_parallel_eps(&F(0.125)));
    assert!((dir, wall).is_parallel_eps(&F(0.25)));
}

#[test]
fn test_parallel_exact() {
    let v = Vector2::new(2isize, 3);
    let l: Line2<isize> = Line::new(Point2::new(1, 1), Point2::new(5, 7));
    let m: Line2<isize> = Line::new(Point2::new(1, 1), Point2::new(5, 8));
    assert!((v, l).is_parallel());
    assert!(!(v, m).is_parallel());
    // a line of one point has the zero vector for its direction
    let dot: Line2<isize> = Line::new(Point2::new(1, 1), Point2::new(1, 1));
    assert!((v, dot).is_parallel());
    let n = Vector3::new(1isize, 2, 3);
    let r: Ray3<isize> = Ray::new(Point3::new(0, 0, 0), Vector3::new(3, 0, -1));
    assert!((r, Plane::new(n, 5)).is_parallel());
    assert!(!(r, Plane::new(Vector3::new(1, 2, 4), 5)).is_parallel());
    assert!((Vector4::new(1isize, 0, 0, 2), Vector4::new(3isize, 0, 0, 6)).is_parallel());
}
