//! Planes through three points.

use vstd::prelude::*;
use crate::laws::cross::{
    lemma_cross_anticommutes,
    lemma_cross_is_perpendicular,
    lemma_cross_with_multiple,
    lemma_len2_of_zero3,
};
use crate::laws::dot::{lemma_dot_commutes, lemma_dot_of_difference3};
use crate::model::{dotp, splat, vec_approx_eq, vneg, vscale, vsub};
use crate::plane::{normal_through, on_plane};

verus! {

/// The plane that `from_points` builds through three points holds all
/// three, exactly: with its normal `n = (b - a) × (c - a)` and its distance
/// `d = -(n·a)`, each of the points meets `n·x + d = 0`.
pub proof fn lemma_points_lie_on_their_plane(a: Seq<real>, b: Seq<real>, c: Seq<real>)
    requires
        a.len() == 3,
        b.len() == 3,
        c.len() == 3,
    ensures
        on_plane(normal_through(a, b, c), -dotp(a, normal_through(a, b, c)), a),
        on_plane(normal_through(a, b, c), -dotp(a, normal_through(a, b, c)), b),
        on_plane(normal_through(a, b, c), -dotp(a, normal_through(a, b, c)), c),
{
    let n = normal_through(a, b, c);
    lemma_dot_commutes(a, n);
    lemma_cross_is_perpendicular(vsub(b, a), vsub(c, a));
    lemma_dot_of_difference3(n, b, a);
    lemma_dot_of_difference3(n, c, a);
}

/// Three points on one line give no plane: where `c - a` is a multiple of
/// `b - a`, or `b - a` one of `c - a`, the normal that `from_points`
/// computes is the zero vector, which is approximately zero for every
/// tolerance, so that `from_points` returns `None`.
pub proof fn lemma_points_on_a_line_give_no_plane(
    a: Seq<real>,
    b: Seq<real>,
    c: Seq<real>,
    t: real,
    eps: real,
)
    requires
        a.len() == 3,
        b.len() == 3,
        c.len() == 3,
        vsub(c, a) == vscale(vsub(b, a), t) || vsub(b, a) == vscale(vsub(c, a), t),
    ensures
        normal_through(a, b, c) == splat(3, 0real),
        vec_approx_eq(normal_through(a, b, c), splat(3, 0real), eps),
{
    let u = vsub(b, a);
    let v = vsub(c, a);
    if v == vscale(u, t) {
        lemma_cross_with_multiple(u, t);
    } else {
        lemma_cross_with_multiple(v, t);
        lemma_cross_anticommutes(u, v);
        assert(vneg(splat(3, 0real)) =~= splat(3, 0real));
    }
    let z = splat(3, 0real);
    lemma_len2_of_zero3();
    assert(vsub(z, z) =~= z);
    assert(eps * eps >= 0real) by (nonlinear_arith);
}

} // verus!
