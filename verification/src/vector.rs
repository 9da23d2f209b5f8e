//! Vectors of two, three and four components.
//!
//! A vector is read through its view, the sequence of the real numbers of its
//! components, and every contract here is stated over that sequence.

use vstd::prelude::*;
use crate::angle::Rad;
use crate::angle::rad;
use crate::approx::ApproxEq;
use crate::approx::Epsilon;
use crate::approx::epsilon;
use crate::model::{
    all_hold, cross3, cross_fits, dot_fits, dotp, lemma_folds2, lemma_folds3, lemma_folds4,
    lemma_products_hold2, lemma_products_hold3, lemma_products_hold4, lemma_sums_hold2,
    lemma_sums_hold3, lemma_sums_hold4, len2,
    lerp_fits, maximum, minimum, none_zero, perp2, perp_fits, product, products_hold, splat, sum,
    sums_hold, vadd, vdiv, vec_approx_eq, vec_approx_fits, vlerp, vmul, vneg, vrem_fits, vscale,
    vsub, is_rem_at, is_vrem, rem_fits_at,
};
use crate::num::BaseFloat;
use crate::num::BaseNum;
use crate::num::partial_max;
use crate::num::partial_min;

verus! {

/// What the test for perpendicular vectors decides: `(a·b)² <= |a|²|b|²ε²`.
pub open spec fn perpendicular_within(a: Seq<real>, b: Seq<real>, eps: real) -> bool {
    dotp(a, b) * dotp(a, b) <= len2(a) * len2(b) * eps * eps
}

/// What the general test for parallel vectors decides:
/// `|a|²|b|²(1 - ε²) <= (a·b)²`.
pub open spec fn parallel_within(a: Seq<real>, b: Seq<real>, eps: real) -> bool {
    len2(a) * len2(b) * (1real - eps * eps) <= dotp(a, b) * dotp(a, b)
}

/// What the test for parallel vectors of two components decides:
/// `(a⊥·b)² <= |a|²|b|²ε²`.
pub open spec fn parallel_within2(a: Seq<real>, b: Seq<real>, eps: real) -> bool {
    perp2(a, b) * perp2(a, b) <= len2(a) * len2(b) * eps * eps
}

/// What the test for parallel vectors of three components decides:
/// `|a×b|² <= ε²|a|²|b|²`.
pub open spec fn parallel_within3(a: Seq<real>, b: Seq<real>, eps: real) -> bool {
    len2(cross3(a, b)) <= eps * eps * len2(a) * len2(b)
}

/// `S` can compute the dot product and both squared lengths of `a` and `b`.
pub open spec fn dots_fit<S: BaseNum>(a: Seq<real>, b: Seq<real>) -> bool {
    dot_fits::<S>(a, b) && dot_fits::<S>(a, a) && dot_fits::<S>(b, b)
}

/// `S` can compute the test for perpendicular vectors.
pub open spec fn perpendicular_fits<S: BaseNum>(a: Seq<real>, b: Seq<real>, eps: real) -> bool {
    &&& dots_fit::<S>(a, b)
    &&& S::holds(dotp(a, b) * dotp(a, b))
    &&& S::holds(len2(a) * len2(b))
    &&& S::holds(len2(a) * len2(b) * eps)
    &&& S::holds(len2(a) * len2(b) * eps * eps)
}

/// `S` can compute the general test for parallel vectors.
pub open spec fn parallel_fits<S: BaseNum>(a: Seq<real>, b: Seq<real>, eps: real) -> bool {
    &&& dots_fit::<S>(a, b)
    &&& S::holds(dotp(a, b) * dotp(a, b))
    &&& S::holds(len2(a) * len2(b))
    &&& S::holds(eps * eps)
    &&& S::holds(1real - eps * eps)
    &&& S::holds(len2(a) * len2(b) * (1real - eps * eps))
}

/// `S` can compute the test for parallel vectors of two components.
pub open spec fn parallel_fits2<S: BaseNum>(a: Seq<real>, b: Seq<real>, eps: real) -> bool {
    &&& perp_fits::<S>(a, b)
    &&& dot_fits::<S>(a, a)
    &&& dot_fits::<S>(b, b)
    &&& S::holds(perp2(a, b) * perp2(a, b))
    &&& S::holds(len2(a) * len2(b))
    &&& S::holds(len2(a) * len2(b) * eps)
    &&& S::holds(len2(a) * len2(b) * eps * eps)
}

/// `S` can compute the test for parallel vectors of three components.
pub open spec fn parallel_fits3<S: BaseNum>(a: Seq<real>, b: Seq<real>, eps: real) -> bool {
    &&& cross_fits::<S>(a, b)
    &&& dot_fits::<S>(cross3(a, b), cross3(a, b))
    &&& dot_fits::<S>(a, a)
    &&& dot_fits::<S>(b, b)
    &&& S::holds(eps * eps)
    &&& S::holds(eps * eps * len2(a))
    &&& S::holds(eps * eps * len2(a) * len2(b))
}

/// `S` can scale `a` to the length `length`.
pub open spec fn normalize_fits<S: BaseFloat>(a: Seq<real>, length: real) -> bool {
    &&& dot_fits::<S>(a, a)
    &&& S::holds(length * S::rsqrt_val(len2(a)))
    &&& all_hold::<S>(vscale(a, length * S::rsqrt_val(len2(a))))
}

/// `S` can compute the angle between `a` and `b` from their dot product and
/// their squared lengths.
pub open spec fn angle_fits<S: BaseFloat>(a: Seq<real>, b: Seq<real>) -> bool {
    &&& dots_fit::<S>(a, b)
    &&& S::holds(len2(a) * len2(b))
    &&& S::holds(dotp(a, b) * S::rsqrt_val(len2(a) * len2(b)))
}

/// Numeric operations on vectors. Not all of them make sense in linear
/// algebra; they are there for practical reasons.
pub trait Vector<S: BaseNum>: Sized + Copy + View<V = Seq<real>> {
    /// The number of components.
    spec fn dim() -> nat;

    /// A vector has as many components as its type says.
    proof fn lemma_dim(&self)
        ensures
            self@.len() == Self::dim(),
    ;

    /// Add a scalar to this vector, returning a new vector.
    fn add_s(&self, s: S) -> (r: Self)
        requires
            all_hold::<S>(vadd(self@, splat(Self::dim(), s.val()))),
        ensures
            r@ == vadd(self@, splat(Self::dim(), s.val())),
    ;

    /// Subtract a scalar from this vector, returning a new vector.
    fn sub_s(&self, s: S) -> (r: Self)
        requires
            all_hold::<S>(vsub(self@, splat(Self::dim(), s.val()))),
        ensures
            r@ == vsub(self@, splat(Self::dim(), s.val())),
    ;

    /// Multiply this vector by a scalar, returning a new vector.
    fn mul_s(&self, s: S) -> (r: Self)
        requires
            all_hold::<S>(vscale(self@, s.val())),
        ensures
            r@ == vscale(self@, s.val()),
    ;

    /// Divide this vector by a scalar, returning a new vector.
    fn div_s(&self, s: S) -> (r: Self)
        requires
            s.val() != 0real,
            all_hold::<S>(vdiv(self@, splat(Self::dim(), s.val()))),
        ensures
            r@ == vdiv(self@, splat(Self::dim(), s.val())),
    ;

    /// Take the remainder of this vector by a scalar, returning a new vector.
    fn rem_s(&self, s: S) -> (r: Self)
        requires
            vrem_fits::<S>(self@, splat(Self::dim(), s.val())),
        ensures
            is_vrem(self@, splat(Self::dim(), s.val()), r@),
    ;

    /// Add this vector to another, returning a new vector.
    fn add_v(&self, v: &Self) -> (r: Self)
        requires
            all_hold::<S>(vadd(self@, v@)),
        ensures
            r@ == vadd(self@, v@),
    ;

    /// Subtract another vector from this one, returning a new vector.
    fn sub_v(&self, v: &Self) -> (r: Self)
        requires
            all_hold::<S>(vsub(self@, v@)),
        ensures
            r@ == vsub(self@, v@),
    ;

    /// Multiply this vector by another, returning a new vector.
    fn mul_v(&self, v: &Self) -> (r: Self)
        requires
            all_hold::<S>(vmul(self@, v@)),
        ensures
            r@ == vmul(self@, v@),
    ;

    /// Divide this vector by another, returning a new vector.
    fn div_v(&self, v: &Self) -> (r: Self)
        requires
            none_zero(v@),
            all_hold::<S>(vdiv(self@, v@)),
        ensures
            r@ == vdiv(self@, v@),
    ;

    /// Take the remainder of this vector by another, returning a new vector.
    fn rem_v(&self, v: &Self) -> (r: Self)
        requires
            vrem_fits::<S>(self@, v@),
        ensures
            is_vrem(self@, v@, r@),
    ;

    /// Negate this vector, returning a new vector.
    fn neg(&self) -> (r: Self)
        requires
            all_hold::<S>(vneg(self@)),
        ensures
            r@ == vneg(self@),
    ;

    /// Negate this vector in-place.
    fn neg_self(&mut self)
        requires
            all_hold::<S>(vneg(old(self)@)),
        ensures
            final(self)@ == vneg(old(self)@),
    ;

    /// Add a scalar to this vector in-place.
    fn add_self_s(&mut self, s: S)
        requires
            all_hold::<S>(vadd(old(self)@, splat(Self::dim(), s.val()))),
        ensures
            final(self)@ == vadd(old(self)@, splat(Self::dim(), s.val())),
    ;

    /// Subtract a scalar from this vector, in-place.
    fn sub_self_s(&mut self, s: S)
        requires
            all_hold::<S>(vsub(old(self)@, splat(Self::dim(), s.val()))),
        ensures
            final(self)@ == vsub(old(self)@, splat(Self::dim(), s.val())),
    ;

    /// Multiply this vector by a scalar, in-place.
    fn mul_self_s(&mut self, s: S)
        requires
            all_hold::<S>(vscale(old(self)@, s.val())),
        ensures
            final(self)@ == vscale(old(self)@, s.val()),
    ;

    /// Divide this vector by a scalar, in-place.
    fn div_self_s(&mut self, s: S)
        requires
            s.val() != 0real,
            all_hold::<S>(vdiv(old(self)@, splat(Self::dim(), s.val()))),
        ensures
            final(self)@ == vdiv(old(self)@, splat(Self::dim(), s.val())),
    ;

    /// Take the remainder of this vector by a scalar, in-place.
    fn rem_self_s(&mut self, s: S)
        requires
            vrem_fits::<S>(old(self)@, splat(Self::dim(), s.val())),
        ensures
            is_vrem(old(self)@, splat(Self::dim(), s.val()), final(self)@),
    ;

    /// Add another vector to this one, in-place.
    fn add_self_v(&mut self, v: &Self)
        requires
            all_hold::<S>(vadd(old(self)@, v@)),
        ensures
            final(self)@ == vadd(old(self)@, v@),
    ;

    /// Subtract another vector from this one, in-place.
    fn sub_self_v(&mut self, v: &Self)
        requires
            all_hold::<S>(vsub(old(self)@, v@)),
        ensures
            final(self)@ == vsub(old(self)@, v@),
    ;

    /// Multiply this vector by another, in-place.
    fn mul_self_v(&mut self, v: &Self)
        requires
            all_hold::<S>(vmul(old(self)@, v@)),
        ensures
            final(self)@ == vmul(old(self)@, v@),
    ;

    /// Divide this vector by another, in-place.
    fn div_self_v(&mut self, v: &Self)
        requires
            none_zero(v@),
            all_hold::<S>(vdiv(old(self)@, v@)),
        ensures
            final(self)@ == vdiv(old(self)@, v@),
    ;

    /// Take the remainder of this vector by another, in-place.
    fn rem_self_v(&mut self, v: &Self)
        requires
            vrem_fits::<S>(old(self)@, v@),
        ensures
            is_vrem(old(self)@, v@, final(self)@),
    ;

    /// The sum of each component of the vector.
    fn comp_add(&self) -> (r: S)
        requires
            sums_hold::<S>(self@),
        ensures
            r.val() == sum(self@),
    ;

    /// The product of each component of the vector.
    fn comp_mul(&self) -> (r: S)
        requires
            products_hold::<S>(self@),
        ensures
            r.val() == product(self@),
    ;

    /// Vector dot product.
    #[inline]
    fn dot(&self, other: &Self) -> (r: S)
        requires
            dot_fits::<S>(self@, other@),
        ensures
            r.val() == dotp(self@, other@),
    {
        self.mul_v(other).comp_add()
    }

    /// Returns the squared length of the vector. This does not take a square
    /// root as `length` does, and so serves better where lengths are only
    /// compared.
    #[inline]
    fn length2(&self) -> (r: S)
        requires
            dot_fits::<S>(self@, self@),
        ensures
            r.val() == len2(self@),
    {
        self.dot(self)
    }

    /// With θ the angle between `self` and `other`, returns `true` if
    /// abs(cos(θ)) <= epsilon.
    ///
    /// No root is taken: `|cos θ| <= ε` is tested as `(a·b)² <= |a|²|b|²ε²`.
    #[inline]
    fn is_perpendicular_eps(&self, other: &Self, epsilon: &S) -> (r: bool)
        requires
            perpendicular_fits::<S>(self@, other@, epsilon.val()),
        ensures
            r == perpendicular_within(self@, other@, epsilon.val()),
    {
        let a_dot_b = self.dot(other);
        a_dot_b.mul(a_dot_b).le(self.length2().mul(other.length2()).mul(*epsilon).mul(*epsilon))
    }

    /// With θ the angle between `self` and `other`, returns `true` if
    /// abs(sin(θ)) <= epsilon.
    ///
    /// No root is taken: `|sin θ| <= ε` is tested as
    /// `|a|²|b|²(1 - ε²) <= (a·b)²`.
    #[inline]
    fn is_parallel_eps(&self, other: &Self, epsilon: &S) -> (r: bool)
        requires
            parallel_fits::<S>(self@, other@, epsilon.val()),
        ensures
            r == parallel_within(self@, other@, epsilon.val()),
    {
        let a_dot_b = self.dot(other);
        let one: S = S::one();
        self.length2().mul(other.length2()).mul(one.sub(epsilon.mul(*epsilon))).le(
            a_dot_b.mul(a_dot_b),
        )
    }

    /// The minimum component of the vector.
    fn comp_min(&self) -> (r: S)
        ensures
            r.val() == minimum(self@),
    ;

    /// The maximum component of the vector.
    fn comp_max(&self) -> (r: S)
        ensures
            r.val() == maximum(self@),
    ;
}

/// Approximate equality of two vectors.
///
/// Two vectors are approximately equal where the distance between them is
/// small beside the longer of the two. The scale is never taken below one, so
/// that two vectors near zero still compare as they should; and squares are
/// compared, so that no root is taken: `|a - b|² <= max(|a|², |b|², 1) * ε²`.
pub fn approx_eq_vectors<S: BaseNum, V: Vector<S>>(a: &V, b: &V, epsilon: &S) -> (r: bool)
    requires
        vec_approx_fits::<S>(a@, b@, epsilon.val()),
    ensures
        r == vec_approx_eq(a@, b@, epsilon.val()),
{
    let scale = partial_max(a.length2(), b.length2());
    let d = a.sub_v(b);
    if S::one().lt(scale) {
        d.length2().le(epsilon.mul(*epsilon).mul(scale))
    } else {
        d.length2().le(epsilon.mul(*epsilon))
    }
}

/// Dot product of two vectors.
#[inline]
pub fn dot<S: BaseNum, V: Vector<S>>(a: V, b: V) -> (r: S)
    requires
        dot_fits::<S>(a@, b@),
    ensures
        r.val() == dotp(a@, b@),
{
    a.dot(&b)
}

/// A vector of two components.
#[derive(PartialEq, Eq, Clone, Copy, Hash, Debug)]
pub struct Vector2<S> {
    pub x: S,
    pub y: S,
}

impl<S: BaseNum> View for Vector2<S> {
    type V = Seq<real>;

    open spec fn view(&self) -> Seq<real> {
        seq![self.x.val(), self.y.val()]
    }
}

impl<S> Vector2<S> {
    /// Construct a new vector, using the provided values.
    #[inline]
    pub fn new(x: S, y: S) -> (r: Vector2<S>)
        ensures
            r.x == x,
            r.y == y,
    {
        Vector2 { x, y }
    }
}

impl<S: Copy> Vector2<S> {
    /// Construct a vector from a single value, replicating it.
    #[inline]
    pub fn from_value(value: S) -> (r: Vector2<S>)
        ensures
            r.x == value,
            r.y == value,
    {
        Vector2 { x: value, y: value }
    }

    /// Applies `op` to each component in place, and returns the new vector.
    #[inline]
    pub fn map<F: Fn(S) -> S>(&mut self, op: F) -> (r: Vector2<S>)
        requires
            op.requires((old(self).x,)),
            op.requires((old(self).y,)),
        ensures
            op.ensures((old(self).x,), final(self).x),
            op.ensures((old(self).y,), final(self).y),
            r == *final(self),
    {
        self.x = op(self.x);
        self.y = op(self.y);
        *self
    }
}

impl<S: BaseNum> Vector2<S> {
    /// The additive identity of the vector.
    #[inline]
    pub fn zero() -> (r: Vector2<S>)
        ensures
            r@ == splat(2, 0real),
    {
        let r = Vector2::from_value(S::zero());
        assert(r@ =~= splat(2, 0real));
        r
    }

    /// The multiplicative identity of the vector.
    #[inline]
    pub fn ident() -> (r: Vector2<S>)
        ensures
            r@ == splat(2, 1real),
    {
        let r = Vector2::from_value(S::one());
        assert(r@ =~= splat(2, 1real));
        r
    }
}

/// A vector of three components.
#[derive(PartialEq, Eq, Clone, Copy, Hash, Debug)]
pub struct Vector3<S> {
    pub x: S,
    pub y: S,
    pub z: S,
}

impl<S: BaseNum> View for Vector3<S> {
    type V = Seq<real>;

    open spec fn view(&self) -> Seq<real> {
        seq![self.x.val(), self.y.val(), self.z.val()]
    }
}

impl<S> Vector3<S> {
    /// Construct a new vector, using the provided values.
    #[inline]
    pub fn new(x: S, y: S, z: S) -> (r: Vector3<S>)
        ensures
            r.x == x,
            r.y == y,
            r.z == z,
    {
        Vector3 { x, y, z }
    }
}

impl<S: Copy> Vector3<S> {
    /// Construct a vector from a single value, replicating it.
    #[inline]
    pub fn from_value(value: S) -> (r: Vector3<S>)
        ensures
            r.x == value,
            r.y == value,
            r.z == value,
    {
        Vector3 { x: value, y: value, z: value }
    }

    /// Applies `op` to each component in place, and returns the new vector.
    #[inline]
    pub fn map<F: Fn(S) -> S>(&mut self, op: F) -> (r: Vector3<S>)
        requires
            op.requires((old(self).x,)),
            op.requires((old(self).y,)),
            op.requires((old(self).z,)),
        ensures
            op.ensures((old(self).x,), final(self).x),
            op.ensures((old(self).y,), final(self).y),
            op.ensures((old(self).z,), final(self).z),
            r == *final(self),
    {
        self.x = op(self.x);
        self.y = op(self.y);
        self.z = op(self.z);
        *self
    }
}

impl<S: BaseNum> Vector3<S> {
    /// The additive identity of the vector.
    #[inline]
    pub fn zero() -> (r: Vector3<S>)
        ensures
            r@ == splat(3, 0real),
    {
        let r = Vector3::from_value(S::zero());
        assert(r@ =~= splat(3, 0real));
        r
    }

    /// The multiplicative identity of the vector.
    #[inline]
    pub fn ident() -> (r: Vector3<S>)
        ensures
            r@ == splat(3, 1real),
    {
        let r = Vector3::from_value(S::one());
        assert(r@ =~= splat(3, 1real));
        r
    }
}

/// A vector of four components.
#[derive(PartialEq, Eq, Clone, Copy, Hash, Debug)]
pub struct Vector4<S> {
    pub x: S,
    pub y: S,
    pub z: S,
    pub w: S,
}

impl<S: BaseNum> View for Vector4<S> {
    type V = Seq<real>;

    open spec fn view(&self) -> Seq<real> {
        seq![self.x.val(), self.y.val(), self.z.val(), self.w.val()]
    }
}

impl<S> Vector4<S> {
    /// Construct a new vector, using the provided values.
    #[inline]
    pub fn new(x: S, y: S, z: S, w: S) -> (r: Vector4<S>)
        ensures
            r.x == x,
            r.y == y,
            r.z == z,
            r.w == w,
    {
        Vector4 { x, y, z, w }
    }
}

impl<S: Copy> Vector4<S> {
    /// Construct a vector from a single value, replicating it.
    #[inline]
    pub fn from_value(value: S) -> (r: Vector4<S>)
        ensures
            r.x == value,
            r.y == value,
            r.z == value,
            r.w == value,
    {
        Vector4 { x: value, y: value, z: value, w: value }
    }

    /// Applies `op` to each component in place, and returns the new vector.
    #[inline]
    pub fn map<F: Fn(S) -> S>(&mut self, op: F) -> (r: Vector4<S>)
        requires
            op.requires((old(self).x,)),
            op.requires((old(self).y,)),
            op.requires((old(self).z,)),
            op.requires((old(self).w,)),
        ensures
            op.ensures((old(self).x,), final(self).x),
            op.ensures((old(self).y,), final(self).y),
            op.ensures((old(self).z,), final(self).z),
            op.ensures((old(self).w,), final(self).w),
            r == *final(self),
    {
        self.x = op(self.x);
        self.y = op(self.y);
        self.z = op(self.z);
        self.w = op(self.w);
        *self
    }
}

impl<S: BaseNum> Vector4<S> {
    /// The additive identity of the vector.
    #[inline]
    pub fn zero() -> (r: Vector4<S>)
        ensures
            r@ == splat(4, 0real),
    {
        let r = Vector4::from_value(S::zero());
        assert(r@ =~= splat(4, 0real));
        r
    }

    /// The multiplicative identity of the vector.
    #[inline]
    pub fn ident() -> (r: Vector4<S>)
        ensures
            r@ == splat(4, 1real),
    {
        let r = Vector4::from_value(S::one());
        assert(r@ =~= splat(4, 1real));
        r
    }
}

impl<S: BaseNum> Vector<S> for Vector2<S> {
    open spec fn dim() -> nat {
        2
    }

    proof fn lemma_dim(&self) {
    }

    #[inline]
    fn add_s(&self, s: S) -> (r: Self) {
        proof {
            let w = vadd(self@, splat(2, s.val()));
            assert(w[0] == self.x.val() + s.val());
            assert(w[1] == self.y.val() + s.val());
        }
        let r = Vector2::new(self.x.add(s), self.y.add(s));
        assert(r@ =~= vadd(self@, splat(2, s.val())));
        r
    }

    #[inline]
    fn sub_s(&self, s: S) -> (r: Self) {
        proof {
            let w = vsub(self@, splat(2, s.val()));
            assert(w[0] == self.x.val() - s.val());
            assert(w[1] == self.y.val() - s.val());
        }
        let r = Vector2::new(self.x.sub(s), self.y.sub(s));
        assert(r@ =~= vsub(self@, splat(2, s.val())));
        r
    }

    #[inline]
    fn mul_s(&self, s: S) -> (r: Self) {
        proof {
            let w = vscale(self@, s.val());
            assert(w[0] == self.x.val() * s.val());
            assert(w[1] == self.y.val() * s.val());
        }
        let r = Vector2::new(self.x.mul(s), self.y.mul(s));
        assert(r@ =~= vscale(self@, s.val()));
        r
    }

    #[inline]
    fn div_s(&self, s: S) -> (r: Self) {
        proof {
            let w = vdiv(self@, splat(2, s.val()));
            assert(w[0] == self.x.val() / s.val());
            assert(w[1] == self.y.val() / s.val());
        }
        let r = Vector2::new(self.x.div(s), self.y.div(s));
        assert(r@ =~= vdiv(self@, splat(2, s.val())));
        r
    }

    #[inline]
    fn rem_s(&self, s: S) -> (r: Self) {
        let ghost w = splat(2, s.val());
        proof {
            assert(rem_fits_at::<S>(self@, w, 0));
            assert(rem_fits_at::<S>(self@, w, 1));
        }
        let r = Vector2::new(self.x.rem(s), self.y.rem(s));
        proof {
            assert(is_rem_at(self@, w, r@, 0));
            assert(is_rem_at(self@, w, r@, 1));
        }
        r
    }

    #[inline]
    fn add_v(&self, v: &Self) -> (r: Self) {
        proof {
            let w = vadd(self@, v@);
            assert(w[0] == self.x.val() + v.x.val());
            assert(w[1] == self.y.val() + v.y.val());
        }
        let r = Vector2::new(self.x.add(v.x), self.y.add(v.y));
        assert(r@ =~= vadd(self@, v@));
        r
    }

    #[inline]
    fn sub_v(&self, v: &Self) -> (r: Self) {
        proof {
            let w = vsub(self@, v@);
            assert(w[0] == self.x.val() - v.x.val());
            assert(w[1] == self.y.val() - v.y.val());
        }
        let r = Vector2::new(self.x.sub(v.x), self.y.sub(v.y));
        assert(r@ =~= vsub(self@, v@));
        r
    }

    #[inline]
    fn mul_v(&self, v: &Self) -> (r: Self) {
        proof {
            let w = vmul(self@, v@);
            assert(w[0] == self.x.val() * v.x.val());
            assert(w[1] == self.y.val() * v.y.val());
        }
        let r = Vector2::new(self.x.mul(v.x), self.y.mul(v.y));
        assert(r@ =~= vmul(self@, v@));
        r
    }

    #[inline]
    fn div_v(&self, v: &Self) -> (r: Self) {
        proof {
            let w = vdiv(self@, v@);
            assert(v@[0] != 0real);
            assert(v@[1] != 0real);
            assert(w[0] == self.x.val() / v.x.val());
            assert(w[1] == self.y.val() / v.y.val());
        }
        let r = Vector2::new(self.x.div(v.x), self.y.div(v.y));
        assert(r@ =~= vdiv(self@, v@));
        r
    }

    #[inline]
    fn rem_v(&self, v: &Self) -> (r: Self) {
        let ghost w = v@;
        proof {
            assert(rem_fits_at::<S>(self@, w, 0));
            assert(rem_fits_at::<S>(self@, w, 1));
        }
        let r = Vector2::new(self.x.rem(v.x), self.y.rem(v.y));
        proof {
            assert(is_rem_at(self@, w, r@, 0));
            assert(is_rem_at(self@, w, r@, 1));
        }
        r
    }

    #[inline]
    fn neg(&self) -> (r: Self) {
        proof {
            let w = vneg(self@);
            assert(w[0] == -self.x.val());
            assert(w[1] == -self.y.val());
        }
        let r = Vector2::new(self.x.neg(), self.y.neg());
        assert(r@ =~= vneg(self@));
        r
    }

    #[inline]
    fn neg_self(&mut self) {
        *self = self.neg();
    }

    #[inline]
    fn add_self_s(&mut self, s: S) {
        *self = self.add_s(s);
    }

    #[inline]
    fn sub_self_s(&mut self, s: S) {
        *self = self.sub_s(s);
    }

    #[inline]
    fn mul_self_s(&mut self, s: S) {
        *self = self.mul_s(s);
    }

    #[inline]
    fn div_self_s(&mut self, s: S) {
        *self = self.div_s(s);
    }

    #[inline]
    fn rem_self_s(&mut self, s: S) {
        *self = self.rem_s(s);
    }

    #[inline]
    fn add_self_v(&mut self, v: &Self) {
        *self = self.add_v(v);
    }

    #[inline]
    fn sub_self_v(&mut self, v: &Self) {
        *self = self.sub_v(v);
    }

    #[inline]
    fn mul_self_v(&mut self, v: &Self) {
        *self = self.mul_v(v);
    }

    #[inline]
    fn div_self_v(&mut self, v: &Self) {
        *self = self.div_v(v);
    }

    #[inline]
    fn rem_self_v(&mut self, v: &Self) {
        *self = self.rem_v(v);
    }

    #[inline]
    fn comp_add(&self) -> (r: S) {
        proof {
            lemma_folds2(self@);
            lemma_sums_hold2::<S>(self@);
        }
        self.x.add(self.y)
    }

    #[inline]
    fn comp_mul(&self) -> (r: S) {
        proof {
            lemma_folds2(self@);
            lemma_products_hold2::<S>(self@);
        }
        self.x.mul(self.y)
    }

    #[inline]
    fn comp_min(&self) -> (r: S) {
        proof {
            lemma_folds2(self@);
        }
        partial_min(self.x, self.y)
    }

    #[inline]
    fn comp_max(&self) -> (r: S) {
        proof {
            lemma_folds2(self@);
        }
        partial_max(self.x, self.y)
    }
}

impl<S: BaseNum> Vector<S> for Vector3<S> {
    open spec fn dim() -> nat {
        3
    }

    proof fn lemma_dim(&self) {
    }

    #[inline]
    fn add_s(&self, s: S) -> (r: Self) {
        proof {
            let w = vadd(self@, splat(3, s.val()));
            assert(w[0] == self.x.val() + s.val());
            assert(w[1] == self.y.val() + s.val());
            assert(w[2] == self.z.val() + s.val());
        }
        let r = Vector3::new(self.x.add(s), self.y.add(s), self.z.add(s));
        assert(r@ =~= vadd(self@, splat(3, s.val())));
        r
    }

    #[inline]
    fn sub_s(&self, s: S) -> (r: Self) {
        proof {
            let w = vsub(self@, splat(3, s.val()));
            assert(w[0] == self.x.val() - s.val());
            assert(w[1] == self.y.val() - s.val());
            assert(w[2] == self.z.val() - s.val());
        }
        let r = Vector3::new(self.x.sub(s), self.y.sub(s), self.z.sub(s));
        assert(r@ =~= vsub(self@, splat(3, s.val())));
        r
    }

    #[inline]
    fn mul_s(&self, s: S) -> (r: Self) {
        proof {
            let w = vscale(self@, s.val());
            assert(w[0] == self.x.val() * s.val());
            assert(w[1] == self.y.val() * s.val());
            assert(w[2] == self.z.val() * s.val());
        }
        let r = Vector3::new(self.x.mul(s), self.y.mul(s), self.z.mul(s));
        assert(r@ =~= vscale(self@, s.val()));
        r
    }

    #[inline]
    fn div_s(&self, s: S) -> (r: Self) {
        proof {
            let w = vdiv(self@, splat(3, s.val()));
            assert(w[0] == self.x.val() / s.val());
            assert(w[1] == self.y.val() / s.val());
            assert(w[2] == self.z.val() / s.val());
        }
        let r = Vector3::new(self.x.div(s), self.y.div(s), self.z.div(s));
        assert(r@ =~= vdiv(self@, splat(3, s.val())));
        r
    }

    #[inline]
    fn rem_s(&self, s: S) -> (r: Self) {
        let ghost w = splat(3, s.val());
        proof {
            assert(rem_fits_at::<S>(self@, w, 0));
            assert(rem_fits_at::<S>(self@, w, 1));
            assert(rem_fits_at::<S>(self@, w, 2));
        }
        let r = Vector3::new(self.x.rem(s), self.y.rem(s), self.z.rem(s));
        proof {
            assert(is_rem_at(self@, w, r@, 0));
            assert(is_rem_at(self@, w, r@, 1));
            assert(is_rem_at(self@, w, r@, 2));
        }
        r
    }

    #[inline]
    fn add_v(&self, v: &Self) -> (r: Self) {
        proof {
            let w = vadd(self@, v@);
            assert(w[0] == self.x.val() + v.x.val());
            assert(w[1] == self.y.val() + v.y.val());
            assert(w[2] == self.z.val() + v.z.val());
        }
        let r = Vector3::new(self.x.add(v.x), self.y.add(v.y), self.z.add(v.z));
        assert(r@ =~= vadd(self@, v@));
        r
    }

    #[inline]
    fn sub_v(&self, v: &Self) -> (r: Self) {
        proof {
            let w = vsub(self@, v@);
            assert(w[0] == self.x.val() - v.x.val());
            assert(w[1] == self.y.val() - v.y.val());
            assert(w[2] == self.z.val() - v.z.val());
        }
        let r = Vector3::new(self.x.sub(v.x), self.y.sub(v.y), self.z.sub(v.z));
        assert(r@ =~= vsub(self@, v@));
        r
    }

    #[inline]
    fn mul_v(&self, v: &Self) -> (r: Self) {
        proof {
            let w = vmul(self@, v@);
            assert(w[0] == self.x.val() * v.x.val());
            assert(w[1] == self.y.val() * v.y.val());
            assert(w[2] == self.z.val() * v.z.val());
        }
        let r = Vector3::new(self.x.mul(v.x), self.y.mul(v.y), self.z.mul(v.z));
        assert(r@ =~= vmul(self@, v@));
        r
    }

    #[inline]
    fn div_v(&self, v: &Self) -> (r: Self) {
        proof {
            let w = vdiv(self@, v@);
            assert(v@[0] != 0real);
            assert(v@[1] != 0real);
            assert(v@[2] != 0real);
            assert(w[0] == self.x.val() / v.x.val());
            assert(w[1] == self.y.val() / v.y.val());
            assert(w[2] == self.z.val() / v.z.val());
        }
        let r = Vector3::new(self.x.div(v.x), self.y.div(v.y), self.z.div(v.z));
        assert(r@ =~= vdiv(self@, v@));
        r
    }

    #[inline]
    fn rem_v(&self, v: &Self) -> (r: Self) {
        let ghost w = v@;
        proof {
            assert(rem_fits_at::<S>(self@, w, 0));
            assert(rem_fits_at::<S>(self@, w, 1));
            assert(rem_fits_at::<S>(self@, w, 2));
        }
        let r = Vector3::new(self.x.rem(v.x), self.y.rem(v.y), self.z.rem(v.z));
        proof {
            assert(is_rem_at(self@, w, r@, 0));
            assert(is_rem_at(self@, w, r@, 1));
            assert(is_rem_at(self@, w, r@, 2));
        }
        r
    }

    #[inline]
    fn neg(&self) -> (r: Self) {
        proof {
            let w = vneg(self@);
            assert(w[0] == -self.x.val());
            assert(w[1] == -self.y.val());
            assert(w[2] == -self.z.val());
        }
        let r = Vector3::new(self.x.neg(), self.y.neg(), self.z.neg());
        assert(r@ =~= vneg(self@));
        r
    }

    #[inline]
    fn neg_self(&mut self) {
        *self = self.neg();
    }

    #[inline]
    fn add_self_s(&mut self, s: S) {
        *self = self.add_s(s);
    }

    #[inline]
    fn sub_self_s(&mut self, s: S) {
        *self = self.sub_s(s);
    }

    #[inline]
    fn mul_self_s(&mut self, s: S) {
        *self = self.mul_s(s);
    }

    #[inline]
    fn div_self_s(&mut self, s: S) {
        *self = self.div_s(s);
    }

    #[inline]
    fn rem_self_s(&mut self, s: S) {
        *self = self.rem_s(s);
    }

    #[inline]
    fn add_self_v(&mut self, v: &Self) {
        *self = self.add_v(v);
    }

    #[inline]
    fn sub_self_v(&mut self, v: &Self) {
        *self = self.sub_v(v);
    }

    #[inline]
    fn mul_self_v(&mut self, v: &Self) {
        *self = self.mul_v(v);
    }

    #[inline]
    fn div_self_v(&mut self, v: &Self) {
        *self = self.div_v(v);
    }

    #[inline]
    fn rem_self_v(&mut self, v: &Self) {
        *self = self.rem_v(v);
    }

    #[inline]
    fn comp_add(&self) -> (r: S) {
        proof {
            lemma_folds3(self@);
            lemma_sums_hold3::<S>(self@);
        }
        self.x.add(self.y).add(self.z)
    }

    #[inline]
    fn comp_mul(&self) -> (r: S) {
        proof {
            lemma_folds3(self@);
            lemma_products_hold3::<S>(self@);
        }
        self.x.mul(self.y).mul(self.z)
    }

    #[inline]
    fn comp_min(&self) -> (r: S) {
        proof {
            lemma_folds3(self@);
        }
        partial_min(partial_min(self.x, self.y), self.z)
    }

    #[inline]
    fn comp_max(&self) -> (r: S) {
        proof {
            lemma_folds3(self@);
        }
        partial_max(partial_max(self.x, self.y), self.z)
    }
}

impl<S: BaseNum> Vector<S> for Vector4<S> {
    open spec fn dim() -> nat {
        4
    }

    proof fn lemma_dim(&self) {
    }

    #[inline]
    fn add_s(&self, s: S) -> (r: Self) {
        proof {
            let w = vadd(self@, splat(4, s.val()));
            assert(w[0] == self.x.val() + s.val());
            assert(w[1] == self.y.val() + s.val());
            assert(w[2] == self.z.val() + s.val());
            assert(w[3] == self.w.val() + s.val());
        }
        let r = Vector4::new(self.x.add(s), self.y.add(s), self.z.add(s), self.w.add(s));
        assert(r@ =~= vadd(self@, splat(4, s.val())));
        r
    }

    #[inline]
    fn sub_s(&self, s: S) -> (r: Self) {
        proof {
            let w = vsub(self@, splat(4, s.val()));
            assert(w[0] == self.x.val() - s.val());
            assert(w[1] == self.y.val() - s.val());
            assert(w[2] == self.z.val() - s.val());
            assert(w[3] == self.w.val() - s.val());
        }
        let r = Vector4::new(self.x.sub(s), self.y.sub(s), self.z.sub(s), self.w.sub(s));
        assert(r@ =~= vsub(self@, splat(4, s.val())));
        r
    }

    #[inline]
    fn mul_s(&self, s: S) -> (r: Self) {
        proof {
            let w = vscale(self@, s.val());
            assert(w[0] == self.x.val() * s.val());
            assert(w[1] == self.y.val() * s.val());
            assert(w[2] == self.z.val() * s.val());
            assert(w[3] == self.w.val() * s.val());
        }
        let r = Vector4::new(self.x.mul(s), self.y.mul(s), self.z.mul(s), self.w.mul(s));
        assert(r@ =~= vscale(self@, s.val()));
        r
    }

    #[inline]
    fn div_s(&self, s: S) -> (r: Self) {
        proof {
            let w = vdiv(self@, splat(4, s.val()));
            assert(w[0] == self.x.val() / s.val());
            assert(w[1] == self.y.val() / s.val());
            assert(w[2] == self.z.val() / s.val());
            assert(w[3] == self.w.val() / s.val());
        }
        let r = Vector4::new(self.x.div(s), self.y.div(s), self.z.div(s), self.w.div(s));
        assert(r@ =~= vdiv(self@, splat(4, s.val())));
        r
    }

    #[inline]
    fn rem_s(&self, s: S) -> (r: Self) {
        let ghost w = splat(4, s.val());
        proof {
            assert(rem_fits_at::<S>(self@, w, 0));
            assert(rem_fits_at::<S>(self@, w, 1));
            assert(rem_fits_at::<S>(self@, w, 2));
            assert(rem_fits_at::<S>(self@, w, 3));
        }
        let r = Vector4::new(self.x.rem(s), self.y.rem(s), self.z.rem(s), self.w.rem(s));
        proof {
            assert(is_rem_at(self@, w, r@, 0));
            assert(is_rem_at(self@, w, r@, 1));
            assert(is_rem_at(self@, w, r@, 2));
            assert(is_rem_at(self@, w, r@, 3));
        }
        r
    }

    #[inline]
    fn add_v(&self, v: &Self) -> (r: Self) {
        proof {
            let w = vadd(self@, v@);
            assert(w[0] == self.x.val() + v.x.val());
            assert(w[1] == self.y.val() + v.y.val());
            assert(w[2] == self.z.val() + v.z.val());
            assert(w[3] == self.w.val() + v.w.val());
        }
        let r = Vector4::new(self.x.add(v.x), self.y.add(v.y), self.z.add(v.z), self.w.add(v.w));
        assert(r@ =~= vadd(self@, v@));
        r
    }

    #[inline]
    fn sub_v(&self, v: &Self) -> (r: Self) {
        proof {
            let w = vsub(self@, v@);
            assert(w[0] == self.x.val() - v.x.val());
            assert(w[1] == self.y.val() - v.y.val());
            assert(w[2] == self.z.val() - v.z.val());
            assert(w[3] == self.w.val() - v.w.val());
        }
        let r = Vector4::new(self.x.sub(v.x), self.y.sub(v.y), self.z.sub(v.z), self.w.sub(v.w));
        assert(r@ =~= vsub(self@, v@));
        r
    }

    #[inline]
    fn mul_v(&self, v: &Self) -> (r: Self) {
        proof {
            let w = vmul(self@, v@);
            assert(w[0] == self.x.val() * v.x.val());
            assert(w[1] == self.y.val() * v.y.val());
            assert(w[2] == self.z.val() * v.z.val());
            assert(w[3] == self.w.val() * v.w.val());
        }
        let r = Vector4::new(self.x.mul(v.x), self.y.mul(v.y), self.z.mul(v.z), self.w.mul(v.w));
        assert(r@ =~= vmul(self@, v@));
        r
    }

    #[inline]
    fn div_v(&self, v: &Self) -> (r: Self) {
        proof {
            let w = vdiv(self@, v@);
            assert(v@[0] != 0real);
            assert(v@[1] != 0real);
            assert(v@[2] != 0real);
            assert(v@[3] != 0real);
            assert(w[0] == self.x.val() / v.x.val());
            assert(w[1] == self.y.val() / v.y.val());
            assert(w[2] == self.z.val() / v.z.val());
            assert(w[3] == self.w.val() / v.w.val());
        }
        let r = Vector4::new(self.x.div(v.x), self.y.div(v.y), self.z.div(v.z), self.w.div(v.w));
        assert(r@ =~= vdiv(self@, v@));
        r
    }

    #[inline]
    fn rem_v(&self, v: &Self) -> (r: Self) {
        let ghost w = v@;
        proof {
            assert(rem_fits_at::<S>(self@, w, 0));
            assert(rem_fits_at::<S>(self@, w, 1));
            assert(rem_fits_at::<S>(self@, w, 2));
            assert(rem_fits_at::<S>(self@, w, 3));
        }
        let r = Vector4::new(self.x.rem(v.x), self.y.rem(v.y), self.z.rem(v.z), self.w.rem(v.w));
        proof {
            assert(is_rem_at(self@, w, r@, 0));
            assert(is_rem_at(self@, w, r@, 1));
            assert(is_rem_at(self@, w, r@, 2));
            assert(is_rem_at(self@, w, r@, 3));
        }
        r
    }

    #[inline]
    fn neg(&self) -> (r: Self) {
        proof {
            let w = vneg(self@);
            assert(w[0] == -self.x.val());
            assert(w[1] == -self.y.val());
            assert(w[2] == -self.z.val());
            assert(w[3] == -self.w.val());
        }
        let r = Vector4::new(self.x.neg(), self.y.neg(), self.z.neg(), self.w.neg());
        assert(r@ =~= vneg(self@));
        r
    }

    #[inline]
    fn neg_self(&mut self) {
        *self = self.neg();
    }

    #[inline]
    fn add_self_s(&mut self, s: S) {
        *self = self.add_s(s);
    }

    #[inline]
    fn sub_self_s(&mut self, s: S) {
        *self = self.sub_s(s);
    }

    #[inline]
    fn mul_self_s(&mut self, s: S) {
        *self = self.mul_s(s);
    }

    #[inline]
    fn div_self_s(&mut self, s: S) {
        *self = self.div_s(s);
    }

    #[inline]
    fn rem_self_s(&mut self, s: S) {
        *self = self.rem_s(s);
    }

    #[inline]
    fn add_self_v(&mut self, v: &Self) {
        *self = self.add_v(v);
    }

    #[inline]
    fn sub_self_v(&mut self, v: &Self) {
        *self = self.sub_v(v);
    }

    #[inline]
    fn mul_self_v(&mut self, v: &Self) {
        *self = self.mul_v(v);
    }

    #[inline]
    fn div_self_v(&mut self, v: &Self) {
        *self = self.div_v(v);
    }

    #[inline]
    fn rem_self_v(&mut self, v: &Self) {
        *self = self.rem_v(v);
    }

    #[inline]
    fn comp_add(&self) -> (r: S) {
        proof {
            lemma_folds4(self@);
            lemma_sums_hold4::<S>(self@);
        }
        self.x.add(self.y).add(self.z).add(self.w)
    }

    #[inline]
    fn comp_mul(&self) -> (r: S) {
        proof {
            lemma_folds4(self@);
            lemma_products_hold4::<S>(self@);
        }
        self.x.mul(self.y).mul(self.z).mul(self.w)
    }

    #[inline]
    fn comp_min(&self) -> (r: S) {
        proof {
            lemma_folds4(self@);
        }
        partial_min(partial_min(partial_min(self.x, self.y), self.z), self.w)
    }

    #[inline]
    fn comp_max(&self) -> (r: S) {
        proof {
            lemma_folds4(self@);
        }
        partial_max(partial_max(partial_max(self.x, self.y), self.z), self.w)
    }
}

impl<S: Epsilon> ApproxEq<S> for Vector2<S> {
    open spec fn approx_eq_spec(&self, other: &Self, eps: real) -> bool {
        vec_approx_eq(self@, other@, eps)
    }

    open spec fn approx_eq_fits(&self, other: &Self, eps: real) -> bool {
        vec_approx_fits::<S>(self@, other@, eps)
    }

    #[inline]
    fn approx_eq_eps(&self, other: &Vector2<S>, epsilon: &S) -> (r: bool) {
        approx_eq_vectors(self, other, epsilon)
    }
}

impl<S: Epsilon> ApproxEq<S> for Vector3<S> {
    open spec fn approx_eq_spec(&self, other: &Self, eps: real) -> bool {
        vec_approx_eq(self@, other@, eps)
    }

    open spec fn approx_eq_fits(&self, other: &Self, eps: real) -> bool {
        vec_approx_fits::<S>(self@, other@, eps)
    }

    #[inline]
    fn approx_eq_eps(&self, other: &Vector3<S>, epsilon: &S) -> (r: bool) {
        approx_eq_vectors(self, other, epsilon)
    }
}

impl<S: Epsilon> ApproxEq<S> for Vector4<S> {
    open spec fn approx_eq_spec(&self, other: &Self, eps: real) -> bool {
        vec_approx_eq(self@, other@, eps)
    }

    open spec fn approx_eq_fits(&self, other: &Self, eps: real) -> bool {
        vec_approx_fits::<S>(self@, other@, eps)
    }

    #[inline]
    fn approx_eq_eps(&self, other: &Vector4<S>, epsilon: &S) -> (r: bool) {
        approx_eq_vectors(self, other, epsilon)
    }
}

/// Operations specific to numeric two-dimensional vectors.
impl<S: BaseNum> Vector2<S> {
    /// A unit vector in the `x` direction.
    #[inline]
    pub fn unit_x() -> (r: Vector2<S>)
        ensures
            r@ == seq![1real, 0real],
    {
        let r = Vector2::new(S::one(), S::zero());
        assert(r@ =~= seq![1real, 0real]);
        r
    }

    /// A unit vector in the `y` direction.
    #[inline]
    pub fn unit_y() -> (r: Vector2<S>)
        ensures
            r@ == seq![0real, 1real],
    {
        let r = Vector2::new(S::zero(), S::one());
        assert(r@ =~= seq![0real, 1real]);
        r
    }

    /// The perpendicular dot product of the vector and `other`.
    #[inline]
    pub fn perp_dot(&self, other: &Vector2<S>) -> (r: S)
        requires
            perp_fits::<S>(self@, other@),
        ensures
            r.val() == perp2(self@, other@),
    {
        self.x.mul(other.y).sub(self.y.mul(other.x))
    }

    /// Create a `Vector3`, using the `x` and `y` values from this vector, and
    /// the provided `z`.
    #[inline]
    pub fn extend(&self, z: S) -> (r: Vector3<S>)
        ensures
            r@ == self@.push(z.val()),
            r.x == self.x,
            r.y == self.y,
            r.z == z,
    {
        let r = Vector3::new(self.x, self.y, z);
        assert(r@ =~= self@.push(z.val()));
        r
    }

    /// With θ the angle between `self` and `other`, returns `true` if
    /// abs(sin(θ)) <= epsilon.
    ///
    /// In two dimensions `a⊥·b = |a||b|sin(θ)`, so the test is
    /// `(a⊥·b)² <= |a|²|b|²ε²`.
    #[inline]
    pub fn is_parallel_eps(&self, other: &Vector2<S>, epsilon: &S) -> (r: bool)
        requires
            parallel_fits2::<S>(self@, other@, epsilon.val()),
        ensures
            r == parallel_within2(self@, other@, epsilon.val()),
    {
        let a_perp_dot_b = self.perp_dot(other);
        a_perp_dot_b.mul(a_perp_dot_b).le(
            self.length2().mul(other.length2()).mul(*epsilon).mul(*epsilon),
        )
    }
}

/// Operations specific to numeric three-dimensional vectors.
impl<S: BaseNum> Vector3<S> {
    /// A unit vector in the `x` direction.
    #[inline]
    pub fn unit_x() -> (r: Vector3<S>)
        ensures
            r@ == seq![1real, 0real, 0real],
    {
        let r = Vector3::new(S::one(), S::zero(), S::zero());
        assert(r@ =~= seq![1real, 0real, 0real]);
        r
    }

    /// A unit vector in the `y` direction.
    #[inline]
    pub fn unit_y() -> (r: Vector3<S>)
        ensures
            r@ == seq![0real, 1real, 0real],
    {
        let r = Vector3::new(S::zero(), S::one(), S::zero());
        assert(r@ =~= seq![0real, 1real, 0real]);
        r
    }

    /// A unit vector in the `z` direction.
    #[inline]
    pub fn unit_z() -> (r: Vector3<S>)
        ensures
            r@ == seq![0real, 0real, 1real],
    {
        let r = Vector3::new(S::zero(), S::zero(), S::one());
        assert(r@ =~= seq![0real, 0real, 1real]);
        r
    }

    /// Returns the cross product of the vector and `other`.
    #[inline]
    pub fn cross(&self, other: &Vector3<S>) -> (r: Vector3<S>)
        requires
            cross_fits::<S>(self@, other@),
        ensures
            r@ == cross3(self@, other@),
    {
        proof {
            let w = cross3(self@, other@);
            assert(w[0] == self.y.val() * other.z.val() - self.z.val() * other.y.val());
            assert(w[1] == self.z.val() * other.x.val() - self.x.val() * other.z.val());
            assert(w[2] == self.x.val() * other.y.val() - self.y.val() * other.x.val());
        }
        let r = Vector3::new(
            self.y.mul(other.z).sub(self.z.mul(other.y)),
            self.z.mul(other.x).sub(self.x.mul(other.z)),
            self.x.mul(other.y).sub(self.y.mul(other.x)),
        );
        assert(r@ =~= cross3(self@, other@));
        r
    }

    /// Calculates the cross product of the vector and `other`, then stores the
    /// result in `self`.
    #[inline]
    pub fn cross_self(&mut self, other: &Vector3<S>)
        requires
            cross_fits::<S>(old(self)@, other@),
        ensures
            final(self)@ == cross3(old(self)@, other@),
    {
        *self = self.cross(other)
    }

    /// Create a `Vector4`, using the `x`, `y` and `z` values from this vector,
    /// and the provided `w`.
    #[inline]
    pub fn extend(&self, w: S) -> (r: Vector4<S>)
        ensures
            r@ == self@.push(w.val()),
            r.x == self.x,
            r.y == self.y,
            r.z == self.z,
            r.w == w,
    {
        let r = Vector4::new(self.x, self.y, self.z, w);
        assert(r@ =~= self@.push(w.val()));
        r
    }

    /// Create a `Vector2`, dropping the `z` value.
    #[inline]
    pub fn truncate(&self) -> (r: Vector2<S>)
        ensures
            r@ == self@.drop_last(),
            r.x == self.x,
            r.y == self.y,
    {
        let r = Vector2::new(self.x, self.y);
        assert(r@ =~= self@.drop_last());
        r
    }

    /// With θ the angle between `self` and `other`, returns `true` if
    /// abs(sin(θ)) <= epsilon.
    ///
    /// In three dimensions `|a×b| = |a||b|sin(θ)`, so the test is
    /// `|a×b|² <= ε²|a|²|b|²`.
    #[inline]
    pub fn is_parallel_eps(&self, other: &Vector3<S>, epsilon: &S) -> (r: bool)
        requires
            parallel_fits3::<S>(self@, other@, epsilon.val()),
        ensures
            r == parallel_within3(self@, other@, epsilon.val()),
    {
        self.cross(other).length2().le(
            epsilon.mul(*epsilon).mul(self.length2()).mul(other.length2()),
        )
    }
}

/// Operations specific to numeric four-dimensional vectors.
impl<S: BaseNum> Vector4<S> {
    /// A unit vector in the `x` direction.
    #[inline]
    pub fn unit_x() -> (r: Vector4<S>)
        ensures
            r@ == seq![1real, 0real, 0real, 0real],
    {
        let r = Vector4::new(S::one(), S::zero(), S::zero(), S::zero());
        assert(r@ =~= seq![1real, 0real, 0real, 0real]);
        r
    }

    /// A unit vector in the `y` direction.
    #[inline]
    pub fn unit_y() -> (r: Vector4<S>)
        ensures
            r@ == seq![0real, 1real, 0real, 0real],
    {
        let r = Vector4::new(S::zero(), S::one(), S::zero(), S::zero());
        assert(r@ =~= seq![0real, 1real, 0real, 0real]);
        r
    }

    /// A unit vector in the `z` direction.
    #[inline]
    pub fn unit_z() -> (r: Vector4<S>)
        ensures
            r@ == seq![0real, 0real, 1real, 0real],
    {
        let r = Vector4::new(S::zero(), S::zero(), S::one(), S::zero());
        assert(r@ =~= seq![0real, 0real, 1real, 0real]);
        r
    }

    /// A unit vector in the `w` direction.
    #[inline]
    pub fn unit_w() -> (r: Vector4<S>)
        ensures
            r@ == seq![0real, 0real, 0real, 1real],
    {
        let r = Vector4::new(S::zero(), S::zero(), S::zero(), S::one());
        assert(r@ =~= seq![0real, 0real, 0real, 1real]);
        r
    }

    /// Create a `Vector3`, dropping the `w` value.
    #[inline]
    pub fn truncate(&self) -> (r: Vector3<S>)
        ensures
            r@ == self@.drop_last(),
            r.x == self.x,
            r.y == self.y,
            r.z == self.z,
    {
        let r = Vector3::new(self.x, self.y, self.z);
        assert(r@ =~= self@.drop_last());
        r
    }

    /// Create a `Vector3`, dropping the nth element.
    #[inline]
    pub fn truncate_n(&self, n: isize) -> (r: Vector3<S>)
        requires
            0 <= n <= 3,
        ensures
            r@ == self@.remove(n as int),
            r.x == (if n == 0 { self.y } else { self.x }),
            r.y == (if n <= 1 { self.z } else { self.y }),
            r.z == (if n <= 2 { self.w } else { self.z }),
    {
        let r = if n == 0 {
            Vector3::new(self.y, self.z, self.w)
        } else if n == 1 {
            Vector3::new(self.x, self.z, self.w)
        } else if n == 2 {
            Vector3::new(self.x, self.y, self.w)
        } else {
            Vector3::new(self.x, self.y, self.z)
        };
        assert(r@ =~= self@.remove(n as int));
        r
    }
}

/// Geometric operations on vectors.
pub trait EuclideanVector<S: BaseFloat>: Vector<S> + ApproxEq<S> {
    /// With θ the angle between `self` and `other`, returns `true` if
    /// abs(cos(θ)) is within the default tolerance.
    #[inline]
    fn is_perpendicular(&self, other: &Self) -> (r: bool)
        requires
            perpendicular_fits::<S>(self@, other@, S::epsilon_val()),
        ensures
            r == perpendicular_within(self@, other@, S::epsilon_val()),
    {
        self.is_perpendicular_eps(other, &epsilon())
    }

    /// With θ the angle between `self` and `other`, returns `true` if
    /// abs(sin(θ)) is within the default tolerance.
    #[inline]
    fn is_parallel(&self, other: &Self) -> (r: bool)
        requires
            parallel_fits::<S>(self@, other@, S::epsilon_val()),
        ensures
            r == parallel_within(self@, other@, S::epsilon_val()),
    {
        self.is_parallel_eps(other, &epsilon())
    }

    /// The norm of the vector.
    #[inline]
    fn length(&self) -> (r: S)
        requires
            dot_fits::<S>(self@, self@),
        ensures
            r.val() == S::sqrt_val(len2(self@)),
    {
        self.length2().sqrt()
    }

    /// What `angle` hands to the arc functions of `S`.
    spec fn angle_spec(&self, other: &Self) -> real;

    /// Whether `S` holds every number that `angle` computes on the way.
    spec fn angle_fits_spec(&self, other: &Self) -> bool;

    /// The angle between the vector and `other`, in radians.
    fn angle(&self, other: &Self) -> (r: Rad<S>)
        requires
            self.angle_fits_spec(other),
        ensures
            r.s.val() == self.angle_spec(other),
    ;

    /// Returns a vector with the same direction, but with a `length` (or
    /// `norm`) of `1`.
    #[inline]
    fn normalize(&self) -> (r: Self)
        requires
            normalize_fits::<S>(self@, 1real),
        ensures
            r@ == vscale(self@, 1real * S::rsqrt_val(len2(self@))),
    {
        self.normalize_to(S::one())
    }

    /// Returns a vector with the same direction and a given `length`.
    #[inline]
    fn normalize_to(&self, length: S) -> (r: Self)
        requires
            normalize_fits::<S>(self@, length.val()),
        ensures
            r@ == vscale(self@, length.val() * S::rsqrt_val(len2(self@))),
    {
        self.mul_s(length.mul(self.length2().rsqrt()))
    }

    /// Returns the result of linearly interpolating the vector towards
    /// `other` by the specified amount: `self + (other - self) * amount`. The
    /// amount is not clamped.
    #[inline]
    fn lerp(&self, other: &Self, amount: S) -> (r: Self)
        requires
            lerp_fits::<S>(self@, other@, amount.val()),
        ensures
            r@ == vlerp(self@, other@, amount.val()),
    {
        self.add_v(&other.sub_v(self).mul_s(amount))
    }

    /// Normalises the vector to a length of `1`.
    #[inline]
    fn normalize_self(&mut self)
        requires
            normalize_fits::<S>(old(self)@, 1real),
        ensures
            final(self)@ == vscale(old(self)@, 1real * S::rsqrt_val(len2(old(self)@))),
    {
        self.normalize_self_to(S::one())
    }

    /// Normalizes the vector to `length`.
    #[inline]
    fn normalize_self_to(&mut self, length: S)
        requires
            normalize_fits::<S>(old(self)@, length.val()),
        ensures
            final(self)@ == vscale(old(self)@, length.val() * S::rsqrt_val(len2(old(self)@))),
    {
        let scale = length.mul(self.length2().rsqrt());
        self.mul_self_s(scale);
    }

    /// Linearly interpolates the vector towards `other` by the specified
    /// amount, in place.
    fn lerp_self(&mut self, other: &Self, amount: S)
        requires
            lerp_fits::<S>(old(self)@, other@, amount.val()),
        ensures
            final(self)@ == vlerp(old(self)@, other@, amount.val()),
    {
        let v = other.sub_v(self).mul_s(amount);
        self.add_self_v(&v);
    }
}

impl<S: BaseFloat> EuclideanVector<S> for Vector2<S> {
    open spec fn angle_spec(&self, other: &Self) -> real {
        S::atan2_val(perp2(self@, other@), dotp(self@, other@))
    }

    open spec fn angle_fits_spec(&self, other: &Self) -> bool {
        perp_fits::<S>(self@, other@) && dot_fits::<S>(self@, other@)
    }

    /// With `a⊥·b = |a||b|sin(θ)` and `a·b = |a||b|cos(θ)`, the angle is
    /// `atan2(a⊥·b, a·b)`.
    #[inline]
    fn angle(&self, other: &Vector2<S>) -> (r: Rad<S>) {
        rad(self.perp_dot(other).atan2(self.dot(other)))
    }
}

impl<S: BaseFloat> EuclideanVector<S> for Vector3<S> {
    open spec fn angle_spec(&self, other: &Self) -> real {
        S::atan2_val(S::sqrt_val(len2(cross3(self@, other@))), dotp(self@, other@))
    }

    open spec fn angle_fits_spec(&self, other: &Self) -> bool {
        &&& cross_fits::<S>(self@, other@)
        &&& dot_fits::<S>(cross3(self@, other@), cross3(self@, other@))
        &&& dot_fits::<S>(self@, other@)
    }

    /// With `|a×b| = |a||b|sin(θ)` and `a·b = |a||b|cos(θ)`, the angle is
    /// `atan2(|a×b|, a·b)`.
    #[inline]
    fn angle(&self, other: &Vector3<S>) -> (r: Rad<S>) {
        rad(self.cross(other).length().atan2(self.dot(other)))
    }
}

impl<S: BaseFloat> EuclideanVector<S> for Vector4<S> {
    open spec fn angle_spec(&self, other: &Self) -> real {
        S::acos_val(dotp(self@, other@) * S::rsqrt_val(len2(self@) * len2(other@)))
    }

    open spec fn angle_fits_spec(&self, other: &Self) -> bool {
        angle_fits::<S>(self@, other@)
    }

    /// From `a·b = |a||b|cos(θ)`, the angle is `acos(a·b / sqrt(|a|²|b|²))`.
    #[inline]
    fn angle(&self, other: &Vector4<S>) -> (r: Rad<S>) {
        rad(self.dot(other).mul(self.length2().mul(other.length2()).rsqrt()).acos())
    }
}

} // verus!
