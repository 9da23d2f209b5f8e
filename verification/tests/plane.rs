#![allow(dead_code)]

use cgmath::{
    ApproxEq, BaseFloat, BaseNum, Epsilon, EuclideanVector, IntersectPoint, Plane, Point3, Ray,
    Ray3, Vector, Vector3, Vector4,
};

/// A scalar of double precision, as a caller of the library would bring it.
#[derive(Clone, Copy, Debug, PartialEq, PartialOrd)]
struct F(f64);

impl BaseNum for F {
    fn zero() -> F {
        F(0.0)
    }

    fn one() -> F {
        F(1.0)
    }

    fn add(self, rhs: F) -> F {
        F(self.0 + rhs.0)
    }

    fn sub(self, rhs: F) -> F {
        F(self.0 - rhs.0)
    }

    fn mul(self, rhs: F) -> F {
        F(self.0 * rhs.0)
    }

    fn div(self, rhs: F) -> F {
        F(self.0 / rhs.0)
    }

    fn rem(self, rhs: F) -> F {
        F(self.0 % rhs.0)
    }

    fn neg(self) -> F {
        F(-self.0)
    }

    fn lt(self, rhs: F) -> bool {
        self.0 < rhs.0
    }

    fn le(self, rhs: F) -> bool {
        self.0 <= rhs.0
    }

    fn eq(self, rhs: F) -> bool {
        self.0 == rhs.0
    }
}

impl Epsilon for F {
    fn epsilon() -> F {
        F(1.0e-5)
    }
}

impl BaseFloat for F {
    fn sqrt(self) -> F {
        F(self.0.sqrt())
    }

    fn rsqrt(self) -> F {
        F(self.0.sqrt().recip())
    }

    fn tan(self) -> F {
        F(self.0.tan())
    }

    fn cot(self) -> F {
        F(self.0.tan().recip())
    }

    fn acos(self) -> F {
        F(self.0.acos())
    }

    fn atan2(self, x: F) -> F {
        F(self.0.atan2(x.0))
    }

    fn pi() -> F {
        F(std::f64::consts::PI)
    }

    fn infinity() -> F {
        F(f64::INFINITY)
    }
}

fn v3(x: f64, y: f64, z: f64) -> Vector3<F> {
    Vector3::new(F(x), F(y), F(z))
}

fn p3(x: f64, y: f64, z: f64) -> Point3<F> {
    Point3::new(F(x), F(y), F(z))
}

#[test]
fn test_from_points() {
    assert_eq!(
        Plane::from_points(
            p3(5.0f64, 0.0f64, 5.0f64),
            p3(5.0f64, 5.0f64, 5.0f64),
            p3(5.0f64, 0.0f64, -1.0f64)
        ),
        Some(Plane::from_abcd(F(-30.0f64), F(0.0f64), F(0.0f64), F(150.0f64)))
    );

    assert_eq!(
        Plane::from_points(
            p3(0.0f64, 5.0f64, -5.0f64),
            p3(0.0f64, 5.0f64, 0.0f64),
            p3(0.0f64, 5.0f64, 5.0f64)
        ),
        None
    ); // The points are parallel
}

#[test]
fn test_ray_intersection() {
    let p0 = Plane::from_abcd(F(1f64), F(0f64), F(0f64), F(-7f64));
    let r0: Ray3<F> = Ray::new(p3(2f64, 3f64, 4f64), v3(1f64, 1f64, 1f64).normalize());
    assert_eq!((p0, r0).intersection_point(), Some(p3(7f64, 8f64, 9f64)));

    let p1 = Plane::from_points(p3(5f64, 0f64, 5f64), p3(5f64, 5f64, 5f64), p3(5f64, 0f64, -1f64))
        .unwrap();
    let r1: Ray3<F> = Ray::new(p3(0f64, 0f64, 0f64), v3(-1f64, 0f64, 0f64).normalize());
    assert_eq!((p1, r1).intersection_point(), None); // r1 points away from p1
}

// ---------------------------------------------------------------------------
// Further tests
// ---------------------------------------------------------------------------

#[test]
fn test_from_points_exact() {
    let a = Point3::new(5isize, 0, 5);
    let b = Point3::new(5isize, 5, 5);
    let c = Point3::new(5isize, 0, -1);
    let p = Plane::from_points(a, b, c).unwrap();
    assert_eq!(p, Plane::from_abcd(-30, 0, 0, 150));
    // the three points lie on the plane n·x + d = 0
    for q in [a, b, c] {
        assert_eq!(p.n.x * q.x + p.n.y * q.y + p.n.z * q.z + p.d, 0);
    }
    // three points on one line
    assert_eq!(
        Plane::from_points(Point3::new(1isize, 1, 1), Point3::new(2, 2, 2), Point3::new(5, 5, 5)),
        None
    );
    // two points that coincide
    assert_eq!(Plane::from_points(a, a, c), None);
}

#[test]
fn test_from_points_places_the_points_on_the_plane() {
    let triples = [
        (p3(0.5, 1.25, -3.0), p3(2.0, -7.5, 4.0), p3(-1.0, 0.0, 9.5)),
        (p3(1.0, 0.0, 0.0), p3(0.0, 1.0, 0.0), p3(0.0, 0.0, 1.0)),
        (p3(100.0, 200.0, 300.0), p3(101.0, 200.0, 300.0), p3(100.0, 200.5, 300.0)),
    ];
    for (a, b, c) in triples {
        let p = Plane::from_points(a, b, c).unwrap();
        for q in [a, b, c] {
            let on = p.n.x.0 * q.x.0 + p.n.y.0 * q.y.0 + p.n.z.0 * q.z.0 + p.d.0;
            assert!(on.abs() < 1.0e-5 * (1.0 + p.d.0.abs()));
        }
    }
}

#[test]
fn test_constructors() {
    let n = Vector3::new(1isize, 2, 3);
    assert_eq!(Plane::new(n, 4), Plane { n: n, d: 4 });
    assert_eq!(Plane::from_abcd(1isize, 2, 3, 4), Plane::new(n, 4));
    assert_eq!(Plane::from_vector4(Vector4::new(1isize, 2, 3, 4)), Plane::new(n, 4));
    assert_eq!(Plane::from_point_normal(Point3::new(2isize, 0, -1), n), Plane::new(n, -1));
}

#[test]
fn test_normalize_normal() {
    let p = Plane::from_abcd(F(0.0), F(3.0), F(4.0), F(10.0));
    let q = p.normalize_normal().unwrap();
    assert!(q.n.approx_eq(&v3(0.0, 0.6, 0.8)));
    assert!(q.d.approx_eq(&F(2.0)));
    assert!(q.n.length().approx_eq(&F(1.0)));
    let r = p.normalize_normal_to(F(10.0)).unwrap();
    assert!(r.n.approx_eq(&v3(0.0, 6.0, 8.0)));
    assert!(r.d.approx_eq(&F(20.0)));

    let mut m = p;
    assert!(m.normalize_normal_self());
    assert_eq!(m, q);
    let mut m = p;
    assert!(m.normalize_normal_self_to(F(10.0)));
    assert_eq!(m, r);
}

#[test]
fn test_normalize_normal_without_length() {
    let p = Plane::from_abcd(F(0.0), F(0.0), F(0.0), F(10.0));
    assert_eq!(p.normalize_normal(), None);
    assert_eq!(p.normalize_normal_to(F(3.0)), None);
    let mut m = p;
    assert!(!m.normalize_normal_self());
    assert_eq!(m, p);
    assert!(!m.normalize_normal_self_to(F(3.0)));
    assert_eq!(m, p);
}

#[test]
fn test_normalize_distance() {
    let p = Plane::from_abcd(F(1.0), F(2.0), F(3.0), F(4.0));
    assert_eq!(p.normalize_distance(), Plane::from_abcd(F(4.0), F(8.0), F(12.0), F(1.0)));
    assert_eq!(p.normalize_distance_to(F(2.0)), Plane::from_abcd(F(2.0), F(4.0), F(6.0), F(2.0)));
    let mut m = p;
    m.normalize_distance_self();
    assert_eq!(m, p.normalize_distance());
    let mut m = p;
    m.normalize_distance_self_to(F(2.0));
    assert_eq!(m, p.normalize_distance_to(F(2.0)));
    // with whole numbers, where the division is exact
    let q = Plane::from_abcd(1isize, 2, 3, 4);
    assert_eq!(q.normalize_distance_to(2), Plane::from_abcd(2, 4, 6, 2));
}

#[test]
fn test_plane_approx_eq() {
    let p = Plane::from_abcd(F(1.0), F(0.0), F(0.0), F(2.0));
    assert!(p.approx_eq(&p));
    assert!(p.approx_eq(&Plane::from_abcd(F(1.0), F(0.0), F(1.0e-7), F(2.0))));
    assert!(!p.approx_eq(&Plane::from_abcd(F(1.0), F(0.0), F(0.0), F(2.5))));
    // the comparison is of n * d: with both signs changed that is the same vector
    assert!(p.approx_eq(&Plane::from_abcd(F(-1.0), F(0.0), F(0.0), F(-2.0))));
    // with one sign changed it is the opposite vector
    assert!(!p.approx_eq(&Plane::from_abcd(F(-1.0), F(0.0), F(0.0), F(2.0))));
    // the same plane with n and d both doubled has n * d four times as long
    assert!(!p.approx_eq(&Plane::from_abcd(F(2.0), F(0.0), F(0.0), F(4.0))));
    // and another plane, with n doubled and d halved, has the same n * d
    assert!(p.approx_eq(&Plane::from_abcd(F(2.0), F(0.0), F(0.0), F(1.0))));
    assert!(p.approx_eq_eps(&Plane::from_abcd(F(1.0), F(0.0), F(0.0), F(2.5)), &F(0.5)));
}
