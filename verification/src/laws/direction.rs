//! Parallel and perpendicular vectors.

use vstd::prelude::*;
use crate::laws::algebra::{
    lemma_crossed_products,
    lemma_product_of_sums3,
    lemma_square_of_difference,
    lemma_square_of_product,
    lemma_square_of_sum,
    lemma_times_sum,
};
use crate::laws::cross::{lemma_cross_with_itself, lemma_cross_with_multiple, lemma_len2_of_zero3};
use crate::laws::dot::{lemma_dot_of_scaled, lemma_len2_not_negative, lemma_len2_of_scaled};
use crate::model::{cross3, dotp, lemma_folds2, lemma_folds3, len2, perp2, vmul, vscale};
use crate::vector::{parallel_within, parallel_within2, parallel_within3, perpendicular_within};

verus! {

/// Every vector is parallel to each of its multiples, and so to itself,
/// whatever the tolerance: by the general test.
pub proof fn lemma_parallel_to_multiple(a: Seq<real>, k: real, eps: real)
    ensures
        parallel_within(a, vscale(a, k), eps),
        parallel_within(a, a, eps),
{
    let l = len2(a);
    lemma_len2_of_scaled(a, k);
    lemma_dot_of_scaled(a, a, k);
    let e2 = eps * eps;
    assert(e2 >= 0real) by (nonlinear_arith)
        requires
            e2 == eps * eps,
    ;
    let p = (k * l) * (k * l);
    assert(p >= 0real && l * (k * k * l) == p) by (nonlinear_arith)
        requires
            p == (k * l) * (k * l),
    ;
    assert(p * (1real - e2) <= p) by (nonlinear_arith)
        requires
            p >= 0real,
            e2 >= 0real,
    ;
    let q = l * l;
    assert(q >= 0real) by (nonlinear_arith)
        requires
            q == l * l,
    ;
    assert(q * (1real - e2) <= q) by (nonlinear_arith)
        requires
            q >= 0real,
            e2 >= 0real,
    ;
}

/// Every vector of two components is parallel to each of its multiples, and
/// so to itself, whatever the tolerance: by the test for two components.
pub proof fn lemma_parallel_to_multiple2(a: Seq<real>, k: real, eps: real)
    requires
        a.len() == 2,
    ensures
        parallel_within2(a, vscale(a, k), eps),
        parallel_within2(a, a, eps),
{
    let b = vscale(a, k);
    lemma_len2_not_negative(a);
    lemma_len2_not_negative(b);
    assert(a[0] * (a[1] * k) - a[1] * (a[0] * k) == 0real) by (nonlinear_arith);
    assert(a[0] * a[1] - a[1] * a[0] == 0real) by (nonlinear_arith);
    let la = len2(a);
    let lb = len2(b);
    assert(0real * 0real <= la * lb * eps * eps) by (nonlinear_arith)
        requires
            la >= 0real,
            lb >= 0real,
    ;
    assert(0real * 0real <= la * la * eps * eps) by (nonlinear_arith)
        requires
            la >= 0real,
    ;
}

/// Every vector of three components is parallel to each of its multiples,
/// and so to itself, whatever the tolerance: by the test for three
/// components.
pub proof fn lemma_parallel_to_multiple3(a: Seq<real>, k: real, eps: real)
    requires
        a.len() == 3,
    ensures
        parallel_within3(a, vscale(a, k), eps),
        parallel_within3(a, a, eps),
{
    let b = vscale(a, k);
    lemma_cross_with_multiple(a, k);
    lemma_cross_with_itself(a);
    lemma_len2_of_zero3();
    lemma_len2_not_negative(a);
    lemma_len2_not_negative(b);
    let la = len2(a);
    let lb = len2(b);
    assert(0real <= eps * eps * la * lb) by (nonlinear_arith)
        requires
            la >= 0real,
            lb >= 0real,
    ;
    assert(0real <= eps * eps * la * la) by (nonlinear_arith)
        requires
            la >= 0real,
    ;
}

/// Two vectors whose dot product is zero are perpendicular, whatever the
/// tolerance.
pub proof fn lemma_perpendicular_where_dot_is_zero(a: Seq<real>, b: Seq<real>, eps: real)
    requires
        dotp(a, b) == 0real,
    ensures
        perpendicular_within(a, b, eps),
{
    lemma_len2_not_negative(a);
    lemma_len2_not_negative(b);
    let la = len2(a);
    let lb = len2(b);
    assert(0real * 0real <= la * lb * eps * eps) by (nonlinear_arith)
        requires
            la >= 0real,
            lb >= 0real,
    ;
}

/// Whether two vectors are perpendicular does not change where each is
/// scaled by a number that is not zero.
pub proof fn lemma_perpendicular_of_scaled(a: Seq<real>, b: Seq<real>, k: real, m: real, eps: real)
    requires
        a.len() == b.len(),
        k != 0real,
        m != 0real,
    ensures
        perpendicular_within(vscale(a, k), vscale(b, m), eps) == perpendicular_within(a, b, eps),
{
    let d = dotp(a, b);
    let la = len2(a);
    let lb = len2(b);
    lemma_dot_of_scaled(a, vscale(b, m), k);
    lemma_dot_of_scaled(a, b, m);
    lemma_len2_of_scaled(a, k);
    lemma_len2_of_scaled(b, m);
    let c = (k * k) * (m * m);
    let x = d * d;
    let y = la * lb * eps * eps;
    assert(c > 0real) by (nonlinear_arith)
        requires
            c == (k * k) * (m * m),
            k != 0real,
            m != 0real,
    ;
    assert((k * (m * d)) * (k * (m * d)) == c * x) by (nonlinear_arith)
        requires
            c == (k * k) * (m * m),
            x == d * d,
    ;
    assert((k * k * la) * (m * m * lb) * eps * eps == c * y) by (nonlinear_arith)
        requires
            c == (k * k) * (m * m),
            y == la * lb * eps * eps,
    ;
    assert((c * x <= c * y) == (x <= y)) by (nonlinear_arith)
        requires
            c > 0real,
    ;
}

/// The identity of Lagrange in two dimensions:
/// `|a|²|b|² = (a·b)² + (a⊥·b)²`.
pub proof fn lemma_lagrange2(a: Seq<real>, b: Seq<real>)
    requires
        a.len() == 2,
        b.len() == 2,
    ensures
        len2(a) * len2(b) == dotp(a, b) * dotp(a, b) + perp2(a, b) * perp2(a, b),
{
    lemma_folds2(vmul(a, a));
    lemma_folds2(vmul(b, b));
    lemma_folds2(vmul(a, b));
    let (a0, a1) = (a[0], a[1]);
    let (b0, b1) = (b[0], b[1]);
    let (m00, m01, m10, m11) = (a0 * b0, a0 * b1, a1 * b0, a1 * b1);
    // the left side, multiplied out
    lemma_times_sum(a0 * a0 + a1 * a1, b0 * b0, b1 * b1);
    lemma_times_sum(b0 * b0, a0 * a0, a1 * a1);
    lemma_times_sum(b1 * b1, a0 * a0, a1 * a1);
    lemma_square_of_product(a0, b0);
    lemma_square_of_product(a0, b1);
    lemma_square_of_product(a1, b0);
    lemma_square_of_product(a1, b1);
    // the right side, multiplied out
    lemma_square_of_sum(m00, m11);
    lemma_square_of_difference(m01, m10);
    lemma_crossed_products(a0, b0, a1, b1);
}

/// For vectors of two components the test for two components decides as the
/// general test does.
pub proof fn lemma_parallel_tests_agree2(a: Seq<real>, b: Seq<real>, eps: real)
    requires
        a.len() == 2,
        b.len() == 2,
    ensures
        parallel_within2(a, b, eps) == parallel_within(a, b, eps),
{
    lemma_lagrange2(a, b);
    let l = len2(a) * len2(b);
    let e2 = eps * eps;
    assert(l * eps * eps == l * e2) by (nonlinear_arith)
        requires
            e2 == eps * eps,
    ;
    assert(l * (1real - e2) == l - l * e2) by (nonlinear_arith);
}

/// The identity of Lagrange in three dimensions:
/// `|a|²|b|² = (a·b)² + |a×b|²`.
pub proof fn lemma_lagrange3(a: Seq<real>, b: Seq<real>)
    requires
        a.len() == 3,
        b.len() == 3,
    ensures
        len2(a) * len2(b) == dotp(a, b) * dotp(a, b) + len2(cross3(a, b)),
{
    let c = cross3(a, b);
    lemma_folds3(vmul(a, a));
    lemma_folds3(vmul(b, b));
    lemma_folds3(vmul(a, b));
    lemma_folds3(vmul(c, c));
    let (a0, a1, a2) = (a[0], a[1], a[2]);
    let (b0, b1, b2) = (b[0], b[1], b[2]);
    let (m00, m01, m02) = (a0 * b0, a0 * b1, a0 * b2);
    let (m10, m11, m12) = (a1 * b0, a1 * b1, a1 * b2);
    let (m20, m21, m22) = (a2 * b0, a2 * b1, a2 * b2);
    // the left side, multiplied out: the squares of the nine products
    lemma_product_of_sums3(a0 * a0, a1 * a1, a2 * a2, b0 * b0, b1 * b1, b2 * b2);
    lemma_square_of_product(a0, b0);
    lemma_square_of_product(a0, b1);
    lemma_square_of_product(a0, b2);
    lemma_square_of_product(a1, b0);
    lemma_square_of_product(a1, b1);
    lemma_square_of_product(a1, b2);
    lemma_square_of_product(a2, b0);
    lemma_square_of_product(a2, b1);
    lemma_square_of_product(a2, b2);
    // the square of the dot product
    lemma_square_of_sum(m00 + m11, m22);
    lemma_square_of_sum(m00, m11);
    lemma_times_sum(m22, m00, m11);
    // the squared length of the cross product
    lemma_square_of_difference(m12, m21);
    lemma_square_of_difference(m20, m02);
    lemma_square_of_difference(m01, m10);
    // the mixed products cancel
    lemma_crossed_products(a1, b2, a2, b1);
    lemma_crossed_products(a2, b0, a0, b2);
    lemma_crossed_products(a0, b1, a1, b0);
    assert(m22 * m00 == m00 * m22) by (nonlinear_arith);
}

/// For vectors of three components the test for three components decides
/// as the general test does.
pub proof fn lemma_parallel_tests_agree3(a: Seq<real>, b: Seq<real>, eps: real)
    requires
        a.len() == 3,
        b.len() == 3,
    ensures
        parallel_within3(a, b, eps) == parallel_within(a, b, eps),
{
    lemma_lagrange3(a, b);
    let la = len2(a);
    let lb = len2(b);
    let l = la * lb;
    let e2 = eps * eps;
    assert(e2 * la * lb == l * e2) by (nonlinear_arith)
        requires
            l == la * lb,
    ;
    assert(l * (1real - e2) == l - l * e2) by (nonlinear_arith);
}

} // verus!
