//! Scalars.
//!
//! Every scalar stands for a real number, [`BaseNum::val`], and the contracts of
//! this crate are stated over those numbers. A scalar type holds only some of the
//! reals ([`BaseNum::holds`]); an operation may be called where the type holds the
//! exact result, and then returns it.
//!
//! The integer types implement this exactly. A type that rounds, such as a
//! floating-point type that a caller brings, meets the contracts only up to
//! its rounding, and what is proved here holds of it up to that. So that such
//! a type can implement the traits outside verified code, the specification
//! functions of the traits have a default: a type that does not define them
//! stands for unspecified numbers.

use vstd::prelude::*;
use crate::approx::Epsilon;

verus! {

/// A number type with exact arithmetic on the values it can hold.
pub trait BaseNum: Copy + Sized {
    /// The real number that `self` stands for.
    open spec fn val(self) -> real {
        arbitrary()
    }

    /// Whether some value of this type stands for `v`.
    open spec fn holds(v: real) -> bool {
        arbitrary()
    }

    /// The additive identity.
    fn zero() -> (r: Self)
        ensures
            r.val() == 0real,
    ;

    /// The multiplicative identity.
    fn one() -> (r: Self)
        ensures
            r.val() == 1real,
    ;

    fn add(self, rhs: Self) -> (r: Self)
        requires
            Self::holds(self.val() + rhs.val()),
        ensures
            r.val() == self.val() + rhs.val(),
    ;

    fn sub(self, rhs: Self) -> (r: Self)
        requires
            Self::holds(self.val() - rhs.val()),
        ensures
            r.val() == self.val() - rhs.val(),
    ;

    fn mul(self, rhs: Self) -> (r: Self)
        requires
            Self::holds(self.val() * rhs.val()),
        ensures
            r.val() == self.val() * rhs.val(),
    ;

    /// Exact division: the quotient must be a number that the type holds.
    fn div(self, rhs: Self) -> (r: Self)
        requires
            rhs.val() != 0real,
            Self::holds(self.val() / rhs.val()),
        ensures
            r.val() == self.val() / rhs.val(),
    ;

    /// Whether the type can compute the remainder of `a` by `b`, for `b` not
    /// zero.
    open spec fn rem_fits(a: real, b: real) -> bool {
        arbitrary()
    }

    /// The remainder of the division that rounds towards zero: it has the
    /// sign of `self` and is smaller than `rhs` in absolute value.
    fn rem(self, rhs: Self) -> (r: Self)
        requires
            rhs.val() != 0real,
            Self::rem_fits(self.val(), rhs.val()),
        ensures
            is_trunc_rem(self.val(), rhs.val(), r.val()),
    ;

    fn neg(self) -> (r: Self)
        requires
            Self::holds(-self.val()),
        ensures
            r.val() == -self.val(),
    ;

    fn lt(self, rhs: Self) -> (b: bool)
        ensures
            b == (self.val() < rhs.val()),
    ;

    fn le(self, rhs: Self) -> (b: bool)
        ensures
            b == (self.val() <= rhs.val()),
    ;

    /// Equality of the numbers; two values of the type may stand for one number.
    fn eq(self, rhs: Self) -> (b: bool)
        ensures
            b == (self.val() == rhs.val()),
    ;
}

/// The real number that the integer `i` is.
pub open spec fn int_real(i: int) -> real {
    i as real
}

/// Whether `r` is the remainder of `a` by `b` where the quotient is rounded
/// towards zero: `a - r` is a whole multiple of `b`, and `r` has the sign of
/// `a` and is smaller than `b` in absolute value.
pub open spec fn is_trunc_rem(a: real, b: real, r: real) -> bool {
    &&& exists|q: int| #[trigger] int_real(q) * b == a - r
    &&& (a >= 0real ==> 0real <= r < abs_real(b))
    &&& (a <= 0real ==> -abs_real(b) < r <= 0real)
}

/// The smaller of two reals.
pub open spec fn min_real(a: real, b: real) -> real {
    if a < b { a } else { b }
}

/// The larger of two reals.
pub open spec fn max_real(a: real, b: real) -> real {
    if a > b { a } else { b }
}

/// The absolute value of a real.
pub open spec fn abs_real(a: real) -> real {
    if a < 0real { -a } else { a }
}

/// The smaller of `a` and `b`; `a` where neither is smaller.
pub fn partial_min<S: BaseNum>(a: S, b: S) -> (r: S)
    ensures
        r.val() == min_real(a.val(), b.val()),
        r == (if b.val() < a.val() { b } else { a }),
{
    if b.lt(a) { b } else { a }
}

/// The larger of `a` and `b`; `a` where neither is larger.
pub fn partial_max<S: BaseNum>(a: S, b: S) -> (r: S)
    ensures
        r.val() == max_real(a.val(), b.val()),
        r == (if a.val() < b.val() { b } else { a }),
{
    if a.lt(b) { b } else { a }
}

/// The absolute value.
pub fn abs<S: BaseNum>(a: S) -> (r: S)
    requires
        S::holds(-a.val()),
    ensures
        r.val() == abs_real(a.val()),
{
    if a.lt(S::zero()) { a.neg() } else { a }
}

/// One plus one.
pub fn two<S: BaseNum>() -> (r: S)
    requires
        S::holds(2real),
    ensures
        r.val() == 2real,
{
    S::one().add(S::one())
}

/// A scalar type with the functions of floating-point arithmetic.
///
/// What these functions return is given a name and nothing more: a type that
/// rounds cannot promise the exact root or tangent, so the contracts of this
/// crate say only to which numbers each function is applied.
pub trait BaseFloat: Epsilon {
    /// The number that `sqrt` returns for `v`.
    open spec fn sqrt_val(v: real) -> real {
        arbitrary()
    }

    /// The number that `rsqrt` returns for `v`.
    open spec fn rsqrt_val(v: real) -> real {
        arbitrary()
    }

    /// The number that `tan` returns for `v`.
    open spec fn tan_val(v: real) -> real {
        arbitrary()
    }

    /// The number that `cot` returns for `v`.
    open spec fn cot_val(v: real) -> real {
        arbitrary()
    }

    /// The number that `acos` returns for `v`.
    open spec fn acos_val(v: real) -> real {
        arbitrary()
    }

    /// The number that `atan2` returns for `y` and `x`.
    open spec fn atan2_val(y: real, x: real) -> real {
        arbitrary()
    }

    /// The number of `pi`.
    open spec fn pi_val() -> real {
        arbitrary()
    }

    /// The number of `infinity`.
    open spec fn infinity_val() -> real {
        arbitrary()
    }

    /// The square root.
    fn sqrt(self) -> (r: Self)
        ensures
            r.val() == Self::sqrt_val(self.val()),
    ;

    /// One over the square root.
    fn rsqrt(self) -> (r: Self)
        ensures
            r.val() == Self::rsqrt_val(self.val()),
    ;

    /// The tangent of an angle in radians.
    fn tan(self) -> (r: Self)
        ensures
            r.val() == Self::tan_val(self.val()),
    ;

    /// The cotangent of an angle in radians.
    fn cot(self) -> (r: Self)
        ensures
            r.val() == Self::cot_val(self.val()),
    ;

    /// The arc cosine, in radians.
    fn acos(self) -> (r: Self)
        ensures
            r.val() == Self::acos_val(self.val()),
    ;

    /// The angle in radians of the point `(x, self)`, seen from the origin.
    fn atan2(self, x: Self) -> (r: Self)
        ensures
            r.val() == Self::atan2_val(self.val(), x.val()),
    ;

    /// Half a turn in radians.
    fn pi() -> (r: Self)
        ensures
            r.val() == Self::pi_val(),
    ;

    /// A value above every number that the type holds otherwise.
    fn infinity() -> (r: Self)
        ensures
            r.val() == Self::infinity_val(),
    ;
}

/// Whether `v` is an integer between `lo` and `hi`.
pub open spec fn is_int_within(v: real, lo: int, hi: int) -> bool {
    int_real(v.floor()) == v && lo <= v.floor() <= hi
}

/// The product of two integers, as a real, is the product of the two as
/// reals.
pub proof fn lemma_product_of_ints(a: int, b: int)
    ensures
        int_real(a * b) == int_real(a) * int_real(b),
{
    assert(((a * b) as real) == (a as real) * (b as real)) by (nonlinear_arith);
}

proof fn lemma_quotient_of_ints(a: int, b: int, q: int)
    requires
        b != 0,
        int_real(q) == int_real(a) / int_real(b),
    ensures
        a / b == q,
        (-a) / b == -q,
{
    assert((q as real) * (b as real) == (a as real)) by (nonlinear_arith)
        requires
            (b as real) != 0real,
            (q as real) == (a as real) / (b as real),
    ;
    lemma_product_of_ints(q, b);
    assert(a == q * b);
    assert(a / b == q && (-a) / b == -q) by (nonlinear_arith)
        requires
            b != 0,
            a == q * b,
    ;
}

/// The remainder that the integer types compute is the remainder of the
/// division that rounds towards zero.
proof fn lemma_remainder_of_ints(a: int, b: int, r: int)
    requires
        b != 0,
        r == (if a >= 0 {
            a % b
        } else {
            -((-a) % b)
        }),
    ensures
        is_trunc_rem(int_real(a), int_real(b), int_real(r)),
{
    let x = if a >= 0 { a } else { -a };
    assert(x == b * (x / b) + x % b && 0 <= x % b && (b > 0 ==> x % b < b) && (b < 0 ==> x % b
        < -b) && (x == 0 ==> x % b == 0)) by (nonlinear_arith)
        requires
            b != 0,
    ;
    let q = if a >= 0 { x / b } else { -(x / b) };
    assert(q * b == a - r) by (nonlinear_arith)
        requires
            x == b * (x / b) + x % b,
            q == (if a >= 0 { x / b } else { -(x / b) }),
            x == (if a >= 0 { a } else { -a }),
            r == (if a >= 0 { x % b } else { -(x % b) }),
    ;
    lemma_product_of_ints(q, b);
    assert(int_real(q) * int_real(b) == int_real(a) - int_real(r));
    assert(a >= 0 ==> 0 <= r && r < (if b < 0 { -b } else { b }));
    assert(a <= 0 ==> r <= 0 && -(if b < 0 { -b } else { b }) < r);
}

impl BaseNum for i32 {
    open spec fn val(self) -> real {
        int_real(self as int)
    }

    open spec fn holds(v: real) -> bool {
        is_int_within(v, i32::MIN as int, i32::MAX as int)
    }

    fn zero() -> (r: Self) {
        0
    }

    fn one() -> (r: Self) {
        1
    }

    fn add(self, rhs: Self) -> (r: Self) {
        self + rhs
    }

    fn sub(self, rhs: Self) -> (r: Self) {
        self - rhs
    }

    fn mul(self, rhs: Self) -> (r: Self) {
        proof {
            lemma_product_of_ints(self as int, rhs as int);
        }
        self * rhs
    }

    fn div(self, rhs: Self) -> (r: Self) {
        proof {
            let v = self.val() / rhs.val();
            assert(is_int_within(v, i32::MIN as int, i32::MAX as int));
            let q = v.floor();
            assert(rhs != 0);
            lemma_quotient_of_ints(self as int, rhs as int, q);
            assert(rhs == -1 ==> (self as int) / (rhs as int) == -(self as int))
                by (nonlinear_arith);
        }
        self / rhs
    }

    /// The remainder overflows only for the least value by `-1`.
    open spec fn rem_fits(a: real, b: real) -> bool {
        !(a == int_real(i32::MIN as int) && b == int_real(-1))
    }

    fn rem(self, rhs: Self) -> (r: Self) {
        proof {
            assert(rhs != 0);
            lemma_remainder_of_ints(
                self as int,
                rhs as int,
                if self >= 0 {
                    (self as int) % (rhs as int)
                } else {
                    -((-(self as int)) % (rhs as int))
                },
            );
        }
        self % rhs
    }

    fn neg(self) -> (r: Self) {
        -self
    }

    fn lt(self, rhs: Self) -> (b: bool) {
        self < rhs
    }

    fn le(self, rhs: Self) -> (b: bool) {
        self <= rhs
    }

    fn eq(self, rhs: Self) -> (b: bool) {
        self == rhs
    }
}

impl BaseNum for i64 {
    open spec fn val(self) -> real {
        int_real(self as int)
    }

    open spec fn holds(v: real) -> bool {
        is_int_within(v, i64::MIN as int, i64::MAX as int)
    }

    fn zero() -> (r: Self) {
        0
    }

    fn one() -> (r: Self) {
        1
    }

    fn add(self, rhs: Self) -> (r: Self) {
        self + rhs
    }

    fn sub(self, rhs: Self) -> (r: Self) {
        self - rhs
    }

    fn mul(self, rhs: Self) -> (r: Self) {
        proof {
            lemma_product_of_ints(self as int, rhs as int);
        }
        self * rhs
    }

    fn div(self, rhs: Self) -> (r: Self) {
        proof {
            let v = self.val() / rhs.val();
            assert(is_int_within(v, i64::MIN as int, i64::MAX as int));
            let q = v.floor();
            assert(rhs != 0);
            lemma_quotient_of_ints(self as int, rhs as int, q);
            assert(rhs == -1 ==> (self as int) / (rhs as int) == -(self as int))
                by (nonlinear_arith);
        }
        self / rhs
    }

    /// The remainder overflows only for the least value by `-1`.
    open spec fn rem_fits(a: real, b: real) -> bool {
        !(a == int_real(i64::MIN as int) && b == int_real(-1))
    }

    fn rem(self, rhs: Self) -> (r: Self) {
        proof {
            assert(rhs != 0);
            lemma_remainder_of_ints(
                self as int,
                rhs as int,
                if self >= 0 {
                    (self as int) % (rhs as int)
                } else {
                    -((-(self as int)) % (rhs as int))
                },
            );
        }
        self % rhs
    }

    fn neg(self) -> (r: Self) {
        -self
    }

    fn lt(self, rhs: Self) -> (b: bool) {
        self < rhs
    }

    fn le(self, rhs: Self) -> (b: bool) {
        self <= rhs
    }

    fn eq(self, rhs: Self) -> (b: bool) {
        self == rhs
    }
}

impl BaseNum for isize {
    open spec fn val(self) -> real {
        int_real(self as int)
    }

    open spec fn holds(v: real) -> bool {
        is_int_within(v, isize::MIN as int, isize::MAX as int)
    }

    fn zero() -> (r: Self) {
        0
    }

    fn one() -> (r: Self) {
        1
    }

    fn add(self, rhs: Self) -> (r: Self) {
        self + rhs
    }

    fn sub(self, rhs: Self) -> (r: Self) {
        self - rhs
    }

    fn mul(self, rhs: Self) -> (r: Self) {
        proof {
            lemma_product_of_ints(self as int, rhs as int);
        }
        self * rhs
    }

    fn div(self, rhs: Self) -> (r: Self) {
        proof {
            let v = self.val() / rhs.val();
            assert(is_int_within(v, isize::MIN as int, isize::MAX as int));
            let q = v.floor();
            assert(rhs != 0);
            lemma_quotient_of_ints(self as int, rhs as int, q);
            assert(rhs == -1 ==> (self as int) / (rhs as int) == -(self as int))
                by (nonlinear_arith);
        }
        self / rhs
    }

    /// The remainder overflows only for the least value by `-1`.
    open spec fn rem_fits(a: real, b: real) -> bool {
        !(a == int_real(isize::MIN as int) && b == int_real(-1))
    }

    fn rem(self, rhs: Self) -> (r: Self) {
        proof {
            assert(rhs != 0);
            lemma_remainder_of_ints(
                self as int,
                rhs as int,
                if self >= 0 {
                    (self as int) % (rhs as int)
                } else {
                    -((-(self as int)) % (rhs as int))
                },
            );
        }
        self % rhs
    }

    fn neg(self) -> (r: Self) {
        -self
    }

    fn lt(self, rhs: Self) -> (b: bool) {
        self < rhs
    }

    fn le(self, rhs: Self) -> (b: bool) {
        self <= rhs
    }

    fn eq(self, rhs: Self) -> (b: bool) {
        self == rhs
    }
}

} // verus!
