//! Points: positions, where a vector is a displacement. The difference of two
//! points is a vector and a point plus a vector is a point; two points cannot
//! be added.

use vstd::prelude::*;
use crate::model::{all_hold, dot_fits, dotp, splat, vadd, vsub};
use crate::num::BaseNum;
use crate::vector::Vector;
use crate::vector::Vector2;
use crate::vector::Vector3;

verus! {

/// A point in two-dimensional space.
#[derive(PartialEq, Eq, Clone, Copy, Hash, Debug)]
pub struct Point2<S> {
    pub x: S,
    pub y: S,
}

/// A point in three-dimensional space.
#[derive(PartialEq, Eq, Clone, Copy, Hash, Debug)]
pub struct Point3<S> {
    pub x: S,
    pub y: S,
    pub z: S,
}

impl<S: BaseNum> View for Point2<S> {
    type V = Seq<real>;

    open spec fn view(&self) -> Seq<real> {
        seq![self.x.val(), self.y.val()]
    }
}

impl<S: BaseNum> View for Point3<S> {
    type V = Seq<real>;

    open spec fn view(&self) -> Seq<real> {
        seq![self.x.val(), self.y.val(), self.z.val()]
    }
}

impl<S> Point2<S> {
    #[inline]
    pub fn new(x: S, y: S) -> (r: Point2<S>)
        ensures
            r.x == x,
            r.y == y,
    {
        Point2 { x, y }
    }
}

impl<S> Point3<S> {
    #[inline]
    pub fn new(x: S, y: S, z: S) -> (r: Point3<S>)
        ensures
            r.x == x,
            r.y == y,
            r.z == z,
    {
        Point3 { x, y, z }
    }
}

/// What points of every dimension offer, with `V` the vector type of the
/// same dimension.
pub trait Point<S: BaseNum, V: Vector<S>>: Sized + Copy + View<V = Seq<real>> {
    /// A point has as many coordinates as its vectors have components.
    proof fn lemma_dim(&self)
        ensures
            self@.len() == V::dim(),
    ;

    /// The point at the origin of the space.
    fn origin() -> (r: Self)
        ensures
            r@ == splat(V::dim(), 0real),
    ;

    /// The point that `v` leads to from the origin.
    fn from_vec(v: &V) -> (r: Self)
        ensures
            r@ == v@,
    ;

    /// The vector that leads from the origin to this point.
    fn to_vec(&self) -> (r: V)
        ensures
            r@ == self@,
    ;

    /// The point that `v` leads to from this point.
    #[inline]
    fn add_v(&self, v: &V) -> (r: Self)
        requires
            all_hold::<S>(vadd(self@, v@)),
        ensures
            r@ == vadd(self@, v@),
    {
        Self::from_vec(&self.to_vec().add_v(v))
    }

    /// The vector that leads from `p` to this point.
    #[inline]
    fn sub_p(&self, p: &Self) -> (r: V)
        requires
            all_hold::<S>(vsub(self@, p@)),
        ensures
            r@ == vsub(self@, p@),
    {
        self.to_vec().sub_v(&p.to_vec())
    }

    /// The dot product of the vector from the origin to this point with `v`.
    #[inline]
    fn dot(&self, v: &V) -> (r: S)
        requires
            dot_fits::<S>(self@, v@),
        ensures
            r.val() == dotp(self@, v@),
    {
        self.to_vec().dot(v)
    }
}

impl<S: BaseNum> Point<S, Vector2<S>> for Point2<S> {
    proof fn lemma_dim(&self) {
    }

    #[inline]
    fn origin() -> (r: Self) {
        let r = Point2::new(S::zero(), S::zero());
        assert(r@ =~= splat(2, 0real));
        r
    }

    #[inline]
    fn from_vec(v: &Vector2<S>) -> (r: Self) {
        Point2::new(v.x, v.y)
    }

    #[inline]
    fn to_vec(&self) -> (r: Vector2<S>) {
        Vector2::new(self.x, self.y)
    }
}

impl<S: BaseNum> Point<S, Vector3<S>> for Point3<S> {
    proof fn lemma_dim(&self) {
    }

    #[inline]
    fn origin() -> (r: Self) {
        let r = Point3::new(S::zero(), S::zero(), S::zero());
        assert(r@ =~= splat(3, 0real));
        r
    }

    #[inline]
    fn from_vec(v: &Vector3<S>) -> (r: Self) {
        Point3::new(v.x, v.y, v.z)
    }

    #[inline]
    fn to_vec(&self) -> (r: Vector3<S>) {
        Vector3::new(self.x, self.y, self.z)
    }
}

} // verus!
