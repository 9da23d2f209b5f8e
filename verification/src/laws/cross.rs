//! The cross product.

use vstd::prelude::*;
use crate::laws::algebra::{lemma_distribute, lemma_product_of_three};
use crate::model::{cross3, dotp, lemma_folds3, len2, splat, vmul, vneg, vscale};

verus! {

/// Exchanging the arguments of a cross product negates it.
pub proof fn lemma_cross_anticommutes(a: Seq<real>, b: Seq<real>)
    requires
        a.len() == 3,
        b.len() == 3,
    ensures
        cross3(a, b) == vneg(cross3(b, a)),
{
    assert(a[1] * b[2] - a[2] * b[1] == -(b[1] * a[2] - b[2] * a[1])) by (nonlinear_arith);
    assert(a[2] * b[0] - a[0] * b[2] == -(b[2] * a[0] - b[0] * a[2])) by (nonlinear_arith);
    assert(a[0] * b[1] - a[1] * b[0] == -(b[0] * a[1] - b[1] * a[0])) by (nonlinear_arith);
    assert(cross3(a, b) =~= vneg(cross3(b, a)));
}

/// The cross product of a vector with itself is the zero vector.
pub proof fn lemma_cross_with_itself(a: Seq<real>)
    requires
        a.len() == 3,
    ensures
        cross3(a, a) == splat(3, 0real),
{
    assert(a[1] * a[2] - a[2] * a[1] == 0real) by (nonlinear_arith);
    assert(a[2] * a[0] - a[0] * a[2] == 0real) by (nonlinear_arith);
    assert(a[0] * a[1] - a[1] * a[0] == 0real) by (nonlinear_arith);
    assert(cross3(a, a) =~= splat(3, 0real));
}

/// The cross product of a vector with a multiple of itself is the zero
/// vector.
pub proof fn lemma_cross_with_multiple(a: Seq<real>, k: real)
    requires
        a.len() == 3,
    ensures
        cross3(a, vscale(a, k)) == splat(3, 0real),
{
    let b = vscale(a, k);
    assert(a[1] * (a[2] * k) - a[2] * (a[1] * k) == 0real) by (nonlinear_arith);
    assert(a[2] * (a[0] * k) - a[0] * (a[2] * k) == 0real) by (nonlinear_arith);
    assert(a[0] * (a[1] * k) - a[1] * (a[0] * k) == 0real) by (nonlinear_arith);
    assert(cross3(a, b) =~= splat(3, 0real));
}

/// The zero vector of three components has no length.
pub proof fn lemma_len2_of_zero3()
    ensures
        len2(splat(3, 0real)) == 0real,
{
    let z = splat(3, 0real);
    lemma_folds3(vmul(z, z));
    assert(0real * 0real == 0real) by (nonlinear_arith);
}

/// The cross product of two vectors is perpendicular to both.
pub proof fn lemma_cross_is_perpendicular(u: Seq<real>, v: Seq<real>)
    requires
        u.len() == 3,
        v.len() == 3,
    ensures
        dotp(cross3(u, v), u) == 0real,
        dotp(cross3(u, v), v) == 0real,
{
    let n = cross3(u, v);
    lemma_folds3(vmul(n, u));
    lemma_folds3(vmul(n, v));
    let (u0, u1, u2) = (u[0], u[1], u[2]);
    let (v0, v1, v2) = (v[0], v[1], v[2]);
    // each component of the cross product, times a component of `u` or `v`
    lemma_distribute(u1 * v2, u2 * v1, u0);
    lemma_distribute(u2 * v0, u0 * v2, u1);
    lemma_distribute(u0 * v1, u1 * v0, u2);
    lemma_distribute(u1 * v2, u2 * v1, v0);
    lemma_distribute(u2 * v0, u0 * v2, v1);
    lemma_distribute(u0 * v1, u1 * v0, v2);
    // the products of three that occur twice, in two orders
    lemma_product_of_three(u1, v2, u0);
    lemma_product_of_three(u0, v2, u1);
    lemma_product_of_three(u2, v1, u0);
    lemma_product_of_three(u0, v1, u2);
    lemma_product_of_three(u2, v0, u1);
    lemma_product_of_three(u1, v0, u2);
    lemma_product_of_three(u1, v2, v0);
    lemma_product_of_three(u1, v0, v2);
    lemma_product_of_three(u2, v1, v0);
    lemma_product_of_three(u2, v0, v1);
    lemma_product_of_three(u0, v2, v1);
    lemma_product_of_three(u0, v1, v2);
}

} // verus!
