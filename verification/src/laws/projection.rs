//! Projection matrices.

use vstd::prelude::*;
use crate::projection::{frustum_matrix, perspective_fov_matrix};

verus! {

/// The two ways to a perspective matrix agree, where the scalar type
/// computes the tangent and the cotangent exactly.
///
/// With `t` the tangent and `f` the cotangent of half the field of view,
/// `f t = 1`, the matrix built from the field of view is the matrix built
/// from its frustum, which reaches from `-xmax` to `xmax` and from `-ymax`
/// to `ymax` with `ymax = near t` and `xmax = ymax aspect`.
pub proof fn lemma_perspective_agrees_with_frustum(
    f: real,
    t: real,
    aspect: real,
    near: real,
    far: real,
)
    requires
        f * t == 1real,
        aspect > 0real,
        near > 0real,
        near < far,
    ensures
        perspective_fov_matrix(f, aspect, near, far) == frustum_matrix(
            -(near * t * aspect),
            near * t * aspect,
            -(near * t),
            near * t,
            near,
            far,
        ),
{
    let ymax = near * t;
    let xmax = ymax * aspect;
    let m = perspective_fov_matrix(f, aspect, near, far);
    let w = frustum_matrix(-xmax, xmax, -ymax, ymax, near, far);
    assert(t != 0real) by (nonlinear_arith)
        requires
            f * t == 1real,
    ;
    assert(ymax != 0real) by (nonlinear_arith)
        requires
            ymax == near * t,
            near > 0real,
            t != 0real,
    ;
    assert(xmax != 0real) by (nonlinear_arith)
        requires
            xmax == ymax * aspect,
            ymax != 0real,
            aspect > 0real,
    ;
    // 2 near / (2 ymax) = f
    assert(f * ymax == near) by (nonlinear_arith)
        requires
            ymax == near * t,
            f * t == 1real,
    ;
    assert(2real * near / (ymax - (-ymax)) == f) by (nonlinear_arith)
        requires
            f * ymax == near,
            ymax != 0real,
    ;
    // 2 near / (2 xmax) = f / aspect
    let g = f / aspect;
    assert(g * xmax == near) by (nonlinear_arith)
        requires
            g == f / aspect,
            aspect > 0real,
            xmax == ymax * aspect,
            f * ymax == near,
    ;
    assert(2real * near / (xmax - (-xmax)) == g) by (nonlinear_arith)
        requires
            g * xmax == near,
            xmax != 0real,
    ;
    // the frustum is symmetric
    assert((xmax + (-xmax)) / (xmax - (-xmax)) == 0real) by (nonlinear_arith)
        requires
            xmax != 0real,
    ;
    assert((ymax + (-ymax)) / (ymax - (-ymax)) == 0real) by (nonlinear_arith)
        requires
            ymax != 0real,
    ;
    // the depth entries differ in the sign of both numerator and denominator
    let s = far + near;
    let p = 2real * far * near;
    assert(-s / (far - near) == s / (near - far)) by (nonlinear_arith)
        requires
            near < far,
    ;
    assert(-p / (far - near) == p / (near - far)) by (nonlinear_arith)
        requires
            near < far,
    ;
    assert(m[0] =~= w[0]);
    assert(m[1] =~= w[1]);
    assert(m[2] =~= w[2]);
    assert(m[3] =~= w[3]);
    assert(m =~= w);
}

} // verus!
