//! Projection matrices: a perspective projection given by a field of view or
//! by a frustum, and an orthographic projection. Each maps a right-handed
//! view space onto clip space, with depth mapped to `[-1, 1]`.
//!
//! A projection is described by a struct of parameters, and turned into a
//! matrix by `to_mat4`, which asks that the parameters be valid.

use vstd::prelude::*;
use crate::angle::Rad;
use crate::matrix::Mat4;
use crate::matrix::ToMat4;
use crate::num::BaseFloat;
use crate::num::BaseNum;
use crate::num::two;

verus! {

/// Create a perspective projection matrix from a vertical field of view, an
/// aspect ratio and the distances of the near and far planes.
pub fn perspective<S: BaseFloat>(fovy: Rad<S>, aspect: S, near: S, far: S) -> (r: Mat4<S>)
    requires
        (PerspectiveFov { fovy: fovy, aspect: aspect, near: near, far: far }).mat4_fits(),
    ensures
        r@ == (PerspectiveFov { fovy: fovy, aspect: aspect, near: near, far: far }).mat4_spec(),
{
    PerspectiveFov { fovy: fovy, aspect: aspect, near: near, far: far }.to_mat4()
}

/// Create a perspective matrix from a view frustum.
pub fn frustum<S: BaseNum>(left: S, right: S, bottom: S, top: S, near: S, far: S) -> (r: Mat4<S>)
    requires
        (Perspective {
            left: left,
            right: right,
            bottom: bottom,
            top: top,
            near: near,
            far: far,
        }).mat4_fits(),
    ensures
        r@ == (Perspective {
            left: left,
            right: right,
            bottom: bottom,
            top: top,
            near: near,
            far: far,
        }).mat4_spec(),
{
    Perspective {
        left: left,
        right: right,
        bottom: bottom,
        top: top,
        near: near,
        far: far,
    }.to_mat4()
}

/// Create an orthographic projection matrix.
pub fn ortho<S: BaseNum>(left: S, right: S, bottom: S, top: S, near: S, far: S) -> (r: Mat4<S>)
    requires
        (Ortho {
            left: left,
            right: right,
            bottom: bottom,
            top: top,
            near: near,
            far: far,
        }).mat4_fits(),
    ensures
        r@ == (Ortho {
            left: left,
            right: right,
            bottom: bottom,
            top: top,
            near: near,
            far: far,
        }).mat4_spec(),
{
    Ortho { left: left, right: right, bottom: bottom, top: top, near: near, far: far }.to_mat4()
}

/// A description of a projection, which can be turned into a matrix.
pub trait Projection<S: BaseNum>: ToMat4<S> {

}

/// A perspective projection based on a vertical field-of-view angle.
#[derive(PartialEq, Eq, Clone, Copy, Debug)]
pub struct PerspectiveFov<S> {
    pub fovy: Rad<S>,
    pub aspect: S,
    pub near: S,
    pub far: S,
}

/// A perspective projection with arbitrary left/right/bottom/top distances
#[derive(PartialEq, Eq, Clone, Copy, Debug)]
pub struct Perspective<S> {
    pub left: S,
    pub right: S,
    pub bottom: S,
    pub top: S,
    pub near: S,
    pub far: S,
}

/// An orthographic projection with arbitrary left/right/bottom/top distances
#[derive(PartialEq, Eq, Clone, Copy, Debug)]
pub struct Ortho<S> {
    pub left: S,
    pub right: S,
    pub bottom: S,
    pub top: S,
    pub near: S,
    pub far: S,
}

/// The matrix of a perspective projection with the vertical field of view
/// `fovy`, where `f` is the cotangent of half of it.
pub open spec fn perspective_fov_matrix(f: real, aspect: real, near: real, far: real) -> Seq<
    Seq<real>,
> {
    seq![
        seq![f / aspect, 0real, 0real, 0real],
        seq![0real, f, 0real, 0real],
        seq![0real, 0real, (far + near) / (near - far), -1real],
        seq![0real, 0real, 2real * far * near / (near - far), 0real],
    ]
}

/// The matrix of a perspective projection onto a frustum.
pub open spec fn frustum_matrix(
    left: real,
    right: real,
    bottom: real,
    top: real,
    near: real,
    far: real,
) -> Seq<Seq<real>> {
    seq![
        seq![2real * near / (right - left), 0real, 0real, 0real],
        seq![0real, 2real * near / (top - bottom), 0real, 0real],
        seq![
            (right + left) / (right - left),
            (top + bottom) / (top - bottom),
            -(far + near) / (far - near),
            -1real,
        ],
        seq![0real, 0real, -(2real * far * near) / (far - near), 0real],
    ]
}

/// The matrix of an orthographic projection.
pub open spec fn ortho_matrix(
    left: real,
    right: real,
    bottom: real,
    top: real,
    near: real,
    far: real,
) -> Seq<Seq<real>> {
    seq![
        seq![2real / (right - left), 0real, 0real, 0real],
        seq![0real, 2real / (top - bottom), 0real, 0real],
        seq![0real, 0real, -2real / (far - near), 0real],
        seq![
            -(right + left) / (right - left),
            -(top + bottom) / (top - bottom),
            -(far + near) / (far - near),
            1real,
        ],
    ]
}

/// `S` can compute the two entries of a matrix that depend on the depth
/// range, for a perspective projection onto a frustum.
pub open spec fn depth_fits<S: BaseNum>(near: real, far: real) -> bool {
    &&& S::holds(far + near)
    &&& S::holds(-(far + near))
    &&& S::holds(far - near)
    &&& S::holds(-(far + near) / (far - near))
    &&& S::holds(2real * far)
    &&& S::holds(2real * far * near)
    &&& S::holds(-(2real * far * near))
    &&& S::holds(-(2real * far * near) / (far - near))
}

/// `S` can compute the entries of a matrix that depend on one pair of
/// opposite sides `lo` and `hi`, with `num` the number that their distance
/// divides.
pub open spec fn side_fits<S: BaseNum>(lo: real, hi: real, num: real) -> bool {
    &&& S::holds(hi - lo)
    &&& S::holds(num / (hi - lo))
    &&& S::holds(hi + lo)
}

impl<S: BaseFloat> PerspectiveFov<S> {
    /// The parameters are valid: the field of view is between zero and half
    /// a turn, the aspect ratio and both distances are positive, and the near
    /// plane is nearer than the far plane.
    pub open spec fn valid(&self) -> bool {
        &&& 0real < self.fovy.s.val() < S::pi_val()
        &&& self.aspect.val() > 0real
        &&& self.near.val() > 0real
        &&& self.far.val() > 0real
        &&& self.near.val() < self.far.val()
    }

    /// Whether the parameters are valid.
    pub fn is_valid(&self) -> (r: bool)
        ensures
            r == self.valid(),
    {
        let zero = S::zero();
        zero.lt(self.fovy.s) && self.fovy.s.lt(S::pi()) && zero.lt(self.aspect) && zero.lt(
            self.near,
        ) && zero.lt(self.far) && self.near.lt(self.far)
    }

    /// `S` can compute the frustum of this projection.
    pub open spec fn to_perspective_fits(&self) -> bool {
        let ymax = self.near.val() * S::tan_val(self.fovy.s.val() / 2real);
        &&& S::holds(2real)
        &&& S::holds(self.fovy.s.val() / 2real)
        &&& S::holds(ymax)
        &&& S::holds(ymax * self.aspect.val())
        &&& S::holds(-ymax)
        &&& S::holds(-(ymax * self.aspect.val()))
    }

    /// The frustum of this projection: with `ymax = near * tan(fovy / 2)` and
    /// `xmax = ymax * aspect`, it reaches from `-xmax` to `xmax` and from
    /// `-ymax` to `ymax`, between the same near and far planes.
    pub fn to_perspective(&self) -> (r: Perspective<S>)
        requires
            self.to_perspective_fits(),
        ensures
            r.top.val() == self.near.val() * S::tan_val(self.fovy.s.val() / 2real),
            r.right.val() == r.top.val() * self.aspect.val(),
            r.left.val() == -r.right.val(),
            r.bottom.val() == -r.top.val(),
            r.near == self.near,
            r.far == self.far,
    {
        let angle = self.fovy.s.div(two::<S>());
        let ymax = self.near.mul(angle.tan());
        let xmax = ymax.mul(self.aspect);

        Perspective {
            left: xmax.neg(),
            right: xmax,
            bottom: ymax.neg(),
            top: ymax,
            near: self.near,
            far: self.far,
        }
    }
}

impl<S: BaseFloat> ToMat4<S> for PerspectiveFov<S> {
    open spec fn mat4_spec(&self) -> Seq<Seq<real>> {
        perspective_fov_matrix(
            S::cot_val(self.fovy.s.val() / 2real),
            self.aspect.val(),
            self.near.val(),
            self.far.val(),
        )
    }

    open spec fn mat4_fits(&self) -> bool {
        let f = S::cot_val(self.fovy.s.val() / 2real);
        let near = self.near.val();
        let far = self.far.val();
        &&& self.valid()
        &&& S::holds(2real)
        &&& S::holds(self.fovy.s.val() / 2real)
        &&& S::holds(f / self.aspect.val())
        &&& S::holds(far + near)
        &&& S::holds(near - far)
        &&& S::holds((far + near) / (near - far))
        &&& S::holds(-1real)
        &&& S::holds(2real * far)
        &&& S::holds(2real * far * near)
        &&& S::holds(2real * far * near / (near - far))
    }

    fn to_mat4(&self) -> (r: Mat4<S>) {
        let zero = S::zero();
        let f = self.fovy.s.div(two::<S>()).cot();

        let c0r0 = f.div(self.aspect);
        let c1r1 = f;
        let c2r2 = self.far.add(self.near).div(self.near.sub(self.far));
        let c2r3 = S::one().neg();
        let c3r2 = two::<S>().mul(self.far).mul(self.near).div(self.near.sub(self.far));

        let r = Mat4::new(
            c0r0, zero, zero, zero,
            zero, c1r1, zero, zero,
            zero, zero, c2r2, c2r3,
            zero, zero, c3r2, zero,
        );
        proof {
            let m = self.mat4_spec();
            assert(r.x@ =~= m[0]);
            assert(r.y@ =~= m[1]);
            assert(r.z@ =~= m[2]);
            assert(r.w@ =~= m[3]);
            assert(r@ =~= m);
        }
        r
    }
}

impl<S: BaseFloat> Projection<S> for PerspectiveFov<S> {

}

impl<S: BaseNum> Perspective<S> {
    /// The parameters are valid: `left < right`, `bottom < top` and
    /// `near < far`.
    pub open spec fn valid(&self) -> bool {
        &&& self.left.val() < self.right.val()
        &&& self.bottom.val() < self.top.val()
        &&& self.near.val() < self.far.val()
    }

    /// Whether the parameters are valid.
    pub fn is_valid(&self) -> (r: bool)
        ensures
            r == self.valid(),
    {
        self.left.lt(self.right) && self.bottom.lt(self.top) && self.near.lt(self.far)
    }
}

impl<S: BaseNum> ToMat4<S> for Perspective<S> {
    open spec fn mat4_spec(&self) -> Seq<Seq<real>> {
        frustum_matrix(
            self.left.val(),
            self.right.val(),
            self.bottom.val(),
            self.top.val(),
            self.near.val(),
            self.far.val(),
        )
    }

    open spec fn mat4_fits(&self) -> bool {
        let near = self.near.val();
        let far = self.far.val();
        &&& self.valid()
        &&& S::holds(2real)
        &&& S::holds(2real * near)
        &&& side_fits::<S>(self.left.val(), self.right.val(), 2real * near)
        &&& side_fits::<S>(self.bottom.val(), self.top.val(), 2real * near)
        &&& S::holds((self.right.val() + self.left.val()) / (self.right.val() - self.left.val()))
        &&& S::holds((self.top.val() + self.bottom.val()) / (self.top.val() - self.bottom.val()))
        &&& depth_fits::<S>(near, far)
        &&& S::holds(-1real)
    }

    fn to_mat4(&self) -> (r: Mat4<S>) {
        let zero = S::zero();

        let c0r0 = two::<S>().mul(self.near).div(self.right.sub(self.left));
        let c1r1 = two::<S>().mul(self.near).div(self.top.sub(self.bottom));

        let c2r0 = self.right.add(self.left).div(self.right.sub(self.left));
        let c2r1 = self.top.add(self.bottom).div(self.top.sub(self.bottom));
        let c2r2 = self.far.add(self.near).neg().div(self.far.sub(self.near));
        let c2r3 = S::one().neg();

        let c3r2 = two::<S>().mul(self.far).mul(self.near).neg().div(self.far.sub(self.near));

        let r = Mat4::new(
            c0r0, zero, zero, zero,
            zero, c1r1, zero, zero,
            c2r0, c2r1, c2r2, c2r3,
            zero, zero, c3r2, zero,
        );
        proof {
            let m = self.mat4_spec();
            assert(r.x@ =~= m[0]);
            assert(r.y@ =~= m[1]);
            assert(r.z@ =~= m[2]);
            assert(r.w@ =~= m[3]);
            assert(r@ =~= m);
        }
        r
    }
}

impl<S: BaseNum> Projection<S> for Perspective<S> {

}

impl<S: BaseNum> Ortho<S> {
    /// The parameters are valid: `left < right`, `bottom < top` and
    /// `near < far`.
    pub open spec fn valid(&self) -> bool {
        &&& self.left.val() < self.right.val()
        &&& self.bottom.val() < self.top.val()
        &&& self.near.val() < self.far.val()
    }

    /// Whether the parameters are valid.
    pub fn is_valid(&self) -> (r: bool)
        ensures
            r == self.valid(),
    {
        self.left.lt(self.right) && self.bottom.lt(self.top) && self.near.lt(self.far)
    }
}

/// `S` can compute the entries of the matrix of an orthographic projection
/// that depend on one pair of opposite sides `lo` and `hi`.
pub open spec fn ortho_side_fits<S: BaseNum>(lo: real, hi: real) -> bool {
    &&& S::holds(hi - lo)
    &&& S::holds(hi + lo)
    &&& S::holds(-(hi + lo))
    &&& S::holds(-(hi + lo) / (hi - lo))
}

impl<S: BaseNum> ToMat4<S> for Ortho<S> {
    open spec fn mat4_spec(&self) -> Seq<Seq<real>> {
        ortho_matrix(
            self.left.val(),
            self.right.val(),
            self.bottom.val(),
            self.top.val(),
            self.near.val(),
            self.far.val(),
        )
    }

    open spec fn mat4_fits(&self) -> bool {
        &&& self.valid()
        &&& S::holds(2real)
        &&& S::holds(-2real)
        &&& ortho_side_fits::<S>(self.left.val(), self.right.val())
        &&& ortho_side_fits::<S>(self.bottom.val(), self.top.val())
        &&& ortho_side_fits::<S>(self.near.val(), self.far.val())
        &&& S::holds(2real / (self.right.val() - self.left.val()))
        &&& S::holds(2real / (self.top.val() - self.bottom.val()))
        &&& S::holds(-2real / (self.far.val() - self.near.val()))
    }

    fn to_mat4(&self) -> (r: Mat4<S>) {
        let zero = S::zero();

        let c0r0 = two::<S>().div(self.right.sub(self.left));
        let c1r1 = two::<S>().div(self.top.sub(self.bottom));
        let c2r2 = two::<S>().neg().div(self.far.sub(self.near));

        let c3r0 = self.right.add(self.left).neg().div(self.right.sub(self.left));
        let c3r1 = self.top.add(self.bottom).neg().div(self.top.sub(self.bottom));
        let c3r2 = self.far.add(self.near).neg().div(self.far.sub(self.near));
        let c3r3 = S::one();

        let r = Mat4::new(
            c0r0, zero, zero, zero,
            zero, c1r1, zero, zero,
            zero, zero, c2r2, zero,
            c3r0, c3r1, c3r2, c3r3,
        );
        proof {
            let m = self.mat4_spec();
            assert(r.x@ =~= m[0]);
            assert(r.y@ =~= m[1]);
            assert(r.z@ =~= m[2]);
            assert(r.w@ =~= m[3]);
            assert(r@ =~= m);
        }
        r
    }
}

impl<S: BaseNum> Projection<S> for Ortho<S> {

}

} // verus!
