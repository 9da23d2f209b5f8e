//! Planes in three-dimensional space.

use vstd::prelude::*;
use crate::approx::ApproxEq;
use crate::approx::Epsilon;
use crate::model::{
    all_hold, cross3, cross_fits, dot_fits, dotp, len2, splat, vec_approx_eq, vec_approx_fits,
    vscale, vsub,
};
use crate::num::BaseFloat;
use crate::num::BaseNum;
use crate::point::Point;
use crate::point::Point3;
use crate::vector::EuclideanVector;
use crate::vector::approx_eq_vectors;
use crate::vector::Vector;
use crate::vector::Vector3;
use crate::vector::Vector4;

verus! {

/// A 3-dimensional plane, given by a normal and a distance.
///
/// # Fields
///
/// - `n`: the normal of the plane, with the components `A`, `B` and `C` of the
///   plane equation
/// - `d`: the distance value, `D` in the plane equation
///
/// # Notes
///
/// The constructors do not agree on the sign of `d`. `from_point_normal`
/// gives `d = n·p`, so that the plane is `{x : n·x - d = 0}`; `from_points`
/// gives `d = -(n·a)`, so that the plane is `{x : n·x + d = 0}`, and the test
/// of a ray against a plane reads `d` in this second way.
#[derive(PartialEq, Eq, Clone, Copy, Hash, Debug)]
pub struct Plane<S> {
    pub n: Vector3<S>,
    pub d: S,
}

/// The normal of the plane through `a`, `b` and `c` as `from_points` computes
/// it: `(b - a) × (c - a)`.
pub open spec fn normal_through(a: Seq<real>, b: Seq<real>, c: Seq<real>) -> Seq<real> {
    cross3(vsub(b, a), vsub(c, a))
}

/// Whether `x` lies on the plane `{x : n·x + d = 0}`.
pub open spec fn on_plane(n: Seq<real>, d: real, x: Seq<real>) -> bool {
    dotp(n, x) + d == 0real
}

/// `S` can compute the plane through `a`, `b` and `c`.
pub open spec fn from_points_fits<S: Epsilon>(a: Seq<real>, b: Seq<real>, c: Seq<real>) -> bool {
    let n = normal_through(a, b, c);
    &&& all_hold::<S>(vsub(b, a))
    &&& all_hold::<S>(vsub(c, a))
    &&& cross_fits::<S>(vsub(b, a), vsub(c, a))
    &&& vec_approx_fits::<S>(n, splat(3, 0real), S::epsilon_val())
    &&& dot_fits::<S>(a, n)
    &&& S::holds(-dotp(a, n))
}

/// `S` can scale the plane's normal to the length `length`.
pub open spec fn normalize_normal_fits<S: BaseFloat>(n: Seq<real>, d: real, length: real) -> bool {
    let l = S::sqrt_val(len2(n));
    &&& dot_fits::<S>(n, n)
    &&& l != 0real ==> {
        &&& S::holds(length / l)
        &&& all_hold::<S>(vscale(n, length / l))
        &&& S::holds(d * (length / l))
    }
}

/// `S` can scale the plane so that its distance becomes `length`.
pub open spec fn normalize_distance_fits<S: BaseNum>(n: Seq<real>, d: real, length: real) -> bool {
    &&& length != 0real
    &&& S::holds(d / length)
    &&& all_hold::<S>(vscale(n, d / length))
}

impl<S: BaseNum> Plane<S> {
    /// Construct a plane from a normal vector and a scalar distance. The
    /// plane will be perpendicular to `n`, and `d` units offset from the
    /// origin.
    pub fn new(n: Vector3<S>, d: S) -> (r: Plane<S>)
        ensures
            r.n == n,
            r.d == d,
    {
        Plane { n: n, d: d }
    }

    /// # Arguments
    ///
    /// - `a`: the `x` component of the normal
    /// - `b`: the `y` component of the normal
    /// - `c`: the `z` component of the normal
    /// - `d`: the plane's distance value
    pub fn from_abcd(a: S, b: S, c: S, d: S) -> (r: Plane<S>)
        ensures
            r.n == (Vector3 { x: a, y: b, z: c }),
            r.d == d,
    {
        Plane { n: Vector3::new(a, b, c), d: d }
    }

    /// Construct a plane from the components of a four-dimensional vector
    pub fn from_vector4(v: Vector4<S>) -> (r: Plane<S>)
        ensures
            r.n == (Vector3 { x: v.x, y: v.y, z: v.z }),
            r.d == v.w,
    {
        match v {
            Vector4 { x, y, z, w } => Plane { n: Vector3::new(x, y, z), d: w },
        }
    }

    /// Construct a plane from a point and a normal vector.
    /// The plane will contain the point `p` and be perpendicular to `n`.
    pub fn from_point_normal(p: Point3<S>, n: Vector3<S>) -> (r: Plane<S>)
        requires
            dot_fits::<S>(p@, n@),
        ensures
            r.n == n,
            r.d.val() == dotp(p@, n@),
    {
        Plane { n: n, d: p.dot(&n) }
    }

    /// Returns an equal plane, but with `d` = `1`.
    #[inline]
    pub fn normalize_distance(&self) -> (r: Plane<S>)
        requires
            normalize_distance_fits::<S>(self.n@, self.d.val(), 1real),
        ensures
            r.n@ == vscale(self.n@, self.d.val() / 1real),
            r.d.val() == 1real,
    {
        self.normalize_distance_to(S::one())
    }

    /// Returns an equal plane, but with `d` = `length`.
    #[inline]
    pub fn normalize_distance_to(&self, length: S) -> (r: Plane<S>)
        requires
            normalize_distance_fits::<S>(self.n@, self.d.val(), length.val()),
        ensures
            r.n@ == vscale(self.n@, self.d.val() / length.val()),
            r.d == length,
    {
        let scale = self.d.div(length);
        Plane::new(self.n.mul_s(scale), length)
    }

    /// Normalizes the plane normal such that `d` = `1`.
    #[inline]
    pub fn normalize_distance_self(&mut self)
        requires
            normalize_distance_fits::<S>(old(self).n@, old(self).d.val(), 1real),
        ensures
            final(self).n@ == vscale(old(self).n@, old(self).d.val() / 1real),
            final(self).d.val() == 1real,
    {
        self.normalize_distance_self_to(S::one())
    }

    /// Normalizes the plane normal such that `d` = `length`.
    #[inline]
    pub fn normalize_distance_self_to(&mut self, length: S)
        requires
            normalize_distance_fits::<S>(old(self).n@, old(self).d.val(), length.val()),
        ensures
            final(self).n@ == vscale(old(self).n@, old(self).d.val() / length.val()),
            final(self).d == length,
    {
        *self = self.normalize_distance_to(length);
    }
}

impl<S: Epsilon> Plane<S> {
    /// Constructs a plane that passes through the the three points `a`, `b`
    /// and `c`, or `None` where the three lie on one line up to the default
    /// tolerance: where `(b - a) × (c - a)` is approximately zero.
    ///
    /// The plane has that cross product for its normal and `d = -(n·a)`.
    pub fn from_points(a: Point3<S>, b: Point3<S>, c: Point3<S>) -> (r: Option<Plane<S>>)
        requires
            from_points_fits::<S>(a@, b@, c@),
        ensures
            r.is_none() <==> vec_approx_eq(
                normal_through(a@, b@, c@),
                splat(3, 0real),
                S::epsilon_val(),
            ),
            r matches Some(p) ==> p.n@ == normal_through(a@, b@, c@) && p.d.val() == -dotp(
                a@,
                p.n@,
            ),
    {
        // create two vectors that run parallel to the plane
        let v0 = b.sub_p(&a);
        let v1 = c.sub_p(&a);

        // find the normal vector that is perpendicular to v0 and v1
        let n = v0.cross(&v1);

        if n.approx_eq(&Vector3::zero()) {
            None
        } else {
            // compute the distance to the plane
            let d = a.dot(&n).neg();

            Some(Plane::new(n, d))
        }
    }
}

impl<S: BaseFloat> Plane<S> {
    /// Returns an equal plane, but with `n` having a `length` (or `norm`) of
    /// `1`; `None` where the normal has no length.
    #[inline]
    pub fn normalize_normal(&self) -> (r: Option<Plane<S>>)
        requires
            normalize_normal_fits::<S>(self.n@, self.d.val(), 1real),
        ensures
            r.is_none() <==> S::sqrt_val(len2(self.n@)) == 0real,
            r matches Some(p) ==> {
                let k = 1real / S::sqrt_val(len2(self.n@));
                p.n@ == vscale(self.n@, k) && p.d.val() == self.d.val() * k
            },
    {
        self.normalize_normal_to(S::one())
    }

    /// Returns an equal plane, but with `n` having a given `length`; `None`
    /// where the normal has no length.
    #[inline]
    pub fn normalize_normal_to(&self, length: S) -> (r: Option<Plane<S>>)
        requires
            normalize_normal_fits::<S>(self.n@, self.d.val(), length.val()),
        ensures
            r.is_none() <==> S::sqrt_val(len2(self.n@)) == 0real,
            r matches Some(p) ==> {
                let k = length.val() / S::sqrt_val(len2(self.n@));
                p.n@ == vscale(self.n@, k) && p.d.val() == self.d.val() * k
            },
    {
        let l = self.n.length();
        if l.eq(S::zero()) {
            None
        } else {
            let scale = length.div(l);
            Some(Plane::new(self.n.mul_s(scale), self.d.mul(scale)))
        }
    }

    /// Normalizes the plane normal to a length of `1`. Returns `false`, and
    /// leaves the plane as it is, where the normal has no length.
    #[inline]
    pub fn normalize_normal_self(&mut self) -> (r: bool)
        requires
            normalize_normal_fits::<S>(old(self).n@, old(self).d.val(), 1real),
        ensures
            r <==> S::sqrt_val(len2(old(self).n@)) != 0real,
            !r ==> *final(self) == *old(self),
            r ==> {
                let k = 1real / S::sqrt_val(len2(old(self).n@));
                final(self).n@ == vscale(old(self).n@, k) && final(self).d.val() == old(
                    self,
                ).d.val() * k
            },
    {
        self.normalize_normal_self_to(S::one())
    }

    /// Normalizes the plane normal to `length`. Returns `false`, and leaves
    /// the plane as it is, where the normal has no length.
    #[inline]
    pub fn normalize_normal_self_to(&mut self, length: S) -> (r: bool)
        requires
            normalize_normal_fits::<S>(old(self).n@, old(self).d.val(), length.val()),
        ensures
            r <==> S::sqrt_val(len2(old(self).n@)) != 0real,
            !r ==> *final(self) == *old(self),
            r ==> {
                let k = length.val() / S::sqrt_val(len2(old(self).n@));
                final(self).n@ == vscale(old(self).n@, k) && final(self).d.val() == old(
                    self,
                ).d.val() * k
            },
    {
        match self.normalize_normal_to(length) {
            Some(p) => {
                *self = p;
                true
            },
            None => false,
        }
    }
}

/// Two planes are approximately equal where the vectors `n * d` of the two
/// are.
///
/// This compares the pairs `(n, d)` as they are given, not the planes they
/// describe. `(n, d)` and `(-n, -d)` compare equal. `(n, d)` and `(2n, 2d)`,
/// which describe one plane, do not; `(n, d)` and `(2n, d/2)`, which
/// describe two, do.
impl<S: Epsilon> ApproxEq<S> for Plane<S> {
    open spec fn approx_eq_spec(&self, other: &Self, eps: real) -> bool {
        vec_approx_eq(vscale(self.n@, self.d.val()), vscale(other.n@, other.d.val()), eps)
    }

    open spec fn approx_eq_fits(&self, other: &Self, eps: real) -> bool {
        &&& all_hold::<S>(vscale(self.n@, self.d.val()))
        &&& all_hold::<S>(vscale(other.n@, other.d.val()))
        &&& vec_approx_fits::<S>(
            vscale(self.n@, self.d.val()),
            vscale(other.n@, other.d.val()),
            eps,
        )
    }

    #[inline]
    fn approx_eq_eps(&self, other: &Plane<S>, epsilon: &S) -> (r: bool) {
        approx_eq_vectors(&self.n.mul_s(self.d), &other.n.mul_s(other.d), epsilon)
    }
}

} // verus!
