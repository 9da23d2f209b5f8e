#![allow(dead_code)]

use cgmath::{epsilon, rad, ApproxEq, BaseFloat, BaseNum, Epsilon};

/// A scalar of double precision, as a caller of the library would bring it.
#[derive(Clone, Copy, Debug, PartialEq, PartialOrd)]
struct F(f64);

impl BaseNum for F {
    fn zero() -> F {
        F(0.0)
    }

    fn one() -> F {
        F(1.0)
    }

    fn add(self, rhs: F) -> F {
        F(self.0 + rhs.0)
    }

    fn sub(self, rhs: F) -> F {
        F(self.0 - rhs.0)
    }

    fn mul(self, rhs: F) -> F {
        F(self.0 * rhs.0)
    }

    fn div(self, rhs: F) -> F {
        F(self.0 / rhs.0)
    }

    fn rem(self, rhs: F) -> F {
        F(self.0 % rhs.0)
    }

    fn neg(self) -> F {
        F(-self.0)
    }

    fn lt(self, rhs: F) -> bool {
        self.0 < rhs.0
    }

    fn le(self, rhs: F) -> bool {
        self.0 <= rhs.0
    }

    fn eq(self, rhs: F) -> bool {
        self.0 == rhs.0
    }
}

impl Epsilon for F {
    fn epsilon() -> F {
        F(1.0e-5)
    }
}

impl BaseFloat for F {
    fn sqrt(self) -> F {
        F(self.0.sqrt())
    }

    fn rsqrt(self) -> F {
        F(self.0.sqrt().recip())
    }

    fn tan(self) -> F {
        F(self.0.tan())
    }

    fn cot(self) -> F {
        F(self.0.tan().recip())
    }

    fn acos(self) -> F {
        F(self.0.acos())
    }

    fn atan2(self, x: F) -> F {
        F(self.0.atan2(x.0))
    }

    fn pi() -> F {
        F(std::f64::consts::PI)
    }

    fn infinity() -> F {
        F(f64::INFINITY)
    }
}

#[test]
fn test_default_tolerance() {
    assert_eq!(epsilon::<F>(), F(1.0e-5));
    assert_eq!(epsilon::<i32>(), 0);
    assert_eq!(epsilon::<i64>(), 0);
    assert_eq!(epsilon::<isize>(), 0);
    assert_eq!(<i64 as Epsilon>::epsilon(), 0);
}

#[test]
fn test_scalar_approx_eq() {
    assert!(F(1.0).approx_eq(&F(1.0)));
    assert!(F(1.0).approx_eq(&F(1.000001)));
    assert!(F(1.000001).approx_eq(&F(1.0)));
    assert!(!F(1.0).approx_eq(&F(1.0001)));
    assert!(!F(1.0001).approx_eq(&F(1.0)));
    // the bound itself is not within the tolerance
    assert!(F(0.0).approx_eq_eps(&F(0.4), &F(0.5)));
    assert!(!F(0.0).approx_eq_eps(&F(0.5), &F(0.5)));
    assert!(!F(0.5).approx_eq_eps(&F(0.0), &F(0.5)));
    assert!(!F(1.0).approx_eq_eps(&F(1.0), &F(0.0)));
}

#[test]
fn test_whole_number_approx_eq() {
    assert!(7i64.approx_eq_eps(&9, &3));
    assert!(9i64.approx_eq_eps(&7, &3));
    assert!(!7i64.approx_eq_eps(&10, &3));
    assert!(7i64.approx_eq_eps(&7, &1));
    // with the default tolerance of zero nothing is within it
    assert!(!7i64.approx_eq(&7));
}

#[test]
fn test_angle_approx_eq() {
    assert!(rad(F(1.0)).approx_eq(&rad(F(1.000001))));
    assert!(!rad(F(1.0)).approx_eq(&rad(F(1.1))));
    assert!(rad(F(1.0)).approx_eq_eps(&rad(F(1.1)), &F(0.2)));
}
