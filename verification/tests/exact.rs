#![allow(dead_code)]

use cgmath::num::{abs, partial_max, partial_min, two};
use cgmath::{BaseFloat, BaseNum, Epsilon, Point, Point2, Point3, Vector2, Vector3};

/// A scalar of double precision, as a caller of the library would bring it.
#[derive(Clone, Copy, Debug, PartialEq, PartialOrd)]
struct F(f64);

impl BaseNum for F {
    fn zero() -> F {
        F(0.0)
    }

    fn one() -> F {
        F(1.0)
    }

    fn add(self, rhs: F) -> F {
        F(self.0 + rhs.0)
    }

    fn sub(self, rhs: F) -> F {
        F(self.0 - rhs.0)
    }

    fn mul(self, rhs: F) -> F {
        F(self.0 * rhs.0)
    }

    fn div(self, rhs: F) -> F {
        F(self.0 / rhs.0)
    }

    fn rem(self, rhs: F) -> F {
        F(self.0 % rhs.0)
    }

    fn neg(self) -> F {
        F(-self.0)
    }

    fn lt(self, rhs: F) -> bool {
        self.0 < rhs.0
    }

    fn le(self, rhs: F) -> bool {
        self.0 <= rhs.0
    }

    fn eq(self, rhs: F) -> bool {
        self.0 == rhs.0
    }
}

impl Epsilon for F {
    fn epsilon() -> F {
        F(1.0e-5)
    }
}

impl BaseFloat for F {
    fn sqrt(self) -> F {
        F(self.0.sqrt())
    }

    fn rsqrt(self) -> F {
        F(self.0.sqrt().recip())
    }

    fn tan(self) -> F {
        F(self.0.tan())
    }

    fn cot(self) -> F {
        F(self.0.tan().recip())
    }

    fn acos(self) -> F {
        F(self.0.acos())
    }

    fn atan2(self, x: F) -> F {
        F(self.0.atan2(x.0))
    }

    fn pi() -> F {
        F(std::f64::consts::PI)
    }

    fn infinity() -> F {
        F(f64::INFINITY)
    }
}

#[test]
fn test_whole_number_arithmetic() {
    assert_eq!(<i64 as BaseNum>::zero(), 0);
    assert_eq!(<i64 as BaseNum>::one(), 1);
    assert_eq!(BaseNum::add(7i64, -9), -2);
    assert_eq!(BaseNum::sub(7i64, -9), 16);
    assert_eq!(BaseNum::mul(7i64, -9), -63);
    assert_eq!(BaseNum::div(-63i64, 7), -9);
    assert_eq!(BaseNum::div(63i64, -7), -9);
    assert_eq!(BaseNum::neg(7i64), -7);
    assert_eq!(BaseNum::add(7i32, -9), -2);
    assert_eq!(BaseNum::mul(7isize, -9), -63);
    assert_eq!(BaseNum::div(-63i32, -7), 9);
    assert_eq!(two::<i32>(), 2);
}

#[test]
fn test_whole_number_remainder() {
    // the remainder has the sign of the dividend
    assert_eq!(BaseNum::rem(7i64, 3), 1);
    assert_eq!(BaseNum::rem(-7i64, 3), -1);
    assert_eq!(BaseNum::rem(7i64, -3), 1);
    assert_eq!(BaseNum::rem(-7i64, -3), -1);
    assert_eq!(BaseNum::rem(6i64, 3), 0);
    assert_eq!(BaseNum::rem(-6i32, 3), 0);
    assert_eq!(BaseNum::rem(2isize, 5), 2);
    assert_eq!(BaseNum::rem(i64::MIN, 2), 0);
    assert_eq!(BaseNum::rem(i64::MAX, -1), 0);
}

#[test]
fn test_whole_number_order() {
    assert!(BaseNum::lt(-3i64, 2));
    assert!(!BaseNum::lt(2i64, 2));
    assert!(BaseNum::le(2i64, 2));
    assert!(!BaseNum::le(3i64, 2));
    assert!(BaseNum::eq(2i64, 2));
    assert!(!BaseNum::eq(2i64, -2));
    assert_eq!(partial_min(3i64, -4), -4);
    assert_eq!(partial_max(3i64, -4), 3);
    assert_eq!(abs(-4i64), 4);
    assert_eq!(abs(4i64), 4);
    assert_eq!(abs(0i64), 0);
}

#[test]
fn test_at_the_limits() {
    assert_eq!(BaseNum::add(i64::MAX, 0), i64::MAX);
    assert_eq!(BaseNum::add(i64::MAX - 1, 1), i64::MAX);
    assert_eq!(BaseNum::sub(i64::MIN + 1, 1), i64::MIN);
    assert_eq!(BaseNum::neg(i64::MAX), i64::MIN + 1);
    assert_eq!(BaseNum::mul(i64::MIN, 1), i64::MIN);
    assert_eq!(BaseNum::div(i64::MIN, 1), i64::MIN);
    assert_eq!(BaseNum::div(i64::MAX, -1), i64::MIN + 1);
    assert_eq!(BaseNum::mul(3037000499i64, 3037000499), 9223372030926249001);
    assert_eq!(BaseNum::add(i32::MAX - 1, 1), i32::MAX);
    assert_eq!(BaseNum::mul(46340i32, 46340), 2147395600);
}

#[test]
fn test_points() {
    let p = Point3::new(1isize, 2, 3);
    let q = Point3::new(4isize, 6, 8);
    let v = Vector3::new(3isize, 4, 5);
    assert_eq!(q.sub_p(&p), v);
    assert_eq!(p.add_v(&v), q);
    assert_eq!(p.dot(&v), 3 + 8 + 15);
    assert_eq!(p.to_vec(), Vector3::new(1, 2, 3));
    assert_eq!(Point3::from_vec(&v), Point3::new(3, 4, 5));
    assert_eq!(<Point3<isize> as Point<isize, Vector3<isize>>>::origin(), Point3::new(0, 0, 0));
    let a = Point2::new(1isize, 2);
    let b = Point2::new(-1isize, 5);
    assert_eq!(b.sub_p(&a), Vector2::new(-2, 3));
    assert_eq!(a.add_v(&Vector2::new(-2, 3)), b);
    assert_eq!(a.dot(&Vector2::new(4, 5)), 14);
    assert_eq!(<Point2<isize> as Point<isize, Vector2<isize>>>::origin(), Point2::new(0, 0));
}

#[test]
fn test_scalar_of_double_precision() {
    // what the tests of this crate bring for a scalar behaves as the library expects
    assert_eq!(two::<F>(), F(2.0));
    assert_eq!(abs(F(-2.5)), F(2.5));
    assert_eq!(partial_min(F(1.0), F(2.0)), F(1.0));
    assert_eq!(partial_max(F(1.0), F(2.0)), F(2.0));
    assert_eq!(F(9.0).sqrt(), F(3.0));
    assert_eq!(F(4.0).rsqrt(), F(0.5));
    assert_eq!(<F as Epsilon>::epsilon(), F(1.0e-5));
}
