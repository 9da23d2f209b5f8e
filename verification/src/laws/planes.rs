//! Where planes meet.

use vstd::prelude::*;
use crate::intersect::{
    normals_det, plane_plane_line, point_at, point_on_both, three_planes_point, triple,
    weighted_crosses,
};
use crate::laws::algebra::{
    lemma_cancel, lemma_distribute, lemma_product_of_three, lemma_quotient_times_divisor,
    lemma_rotate, lemma_times_difference, lemma_times_sum,
};
use crate::laws::cross::lemma_cross_is_perpendicular;
use crate::laws::direction::lemma_lagrange3;
use crate::laws::dot::{lemma_dot_commutes, lemma_dot_of_scaled, lemma_sum_of_scaled};
use crate::model::{cross3, dotp, lemma_folds3, len2, splat, sum, vadd, vdiv, vmul, vneg, vscale};
use crate::plane::on_plane;

verus! {

/// The sum of the components of a sum is the sum of the two sums.
pub proof fn lemma_sum_of_sum(s: Seq<real>, t: Seq<real>)
    requires
        s.len() == t.len(),
    ensures
        sum(vadd(s, t)) == sum(s) + sum(t),
    decreases s.len(),
{
    if s.len() > 0 {
        lemma_sum_of_sum(s.drop_last(), t.drop_last());
        assert(vadd(s, t).drop_last() =~= vadd(s.drop_last(), t.drop_last()));
    }
}

/// The dot product with a sum is the sum of the dot products.
pub proof fn lemma_dot_of_sum(n: Seq<real>, u: Seq<real>, v: Seq<real>)
    requires
        n.len() == u.len(),
        n.len() == v.len(),
    ensures
        dotp(n, vadd(u, v)) == dotp(n, u) + dotp(n, v),
{
    assert forall|i: int| 0 <= i < n.len() implies #[trigger] vmul(n, vadd(u, v))[i] == vadd(
        vmul(n, u),
        vmul(n, v),
    )[i] by {
        assert(n[i] * (u[i] + v[i]) == n[i] * u[i] + n[i] * v[i]) by (nonlinear_arith);
    }
    assert(vmul(n, vadd(u, v)) =~= vadd(vmul(n, u), vmul(n, v)));
    lemma_sum_of_sum(vmul(n, u), vmul(n, v));
}

/// The dot product with a negated vector is the negated dot product.
pub proof fn lemma_dot_of_negated(n: Seq<real>, v: Seq<real>)
    requires
        n.len() == v.len(),
    ensures
        dotp(n, vneg(v)) == -dotp(n, v),
{
    assert forall|i: int| 0 <= i < v.len() implies #[trigger] vneg(v)[i] == vscale(v, -1real)[i] by {
        assert(-v[i] == v[i] * (-1real)) by (nonlinear_arith);
    }
    assert(vneg(v) =~= vscale(v, -1real));
    lemma_dot_of_scaled(n, v, -1real);
}

/// The dot product with a vector divided by `k` is the dot product divided
/// by `k`.
pub proof fn lemma_dot_of_divided(n: Seq<real>, v: Seq<real>, k: real)
    requires
        n.len() == v.len(),
        k != 0real,
    ensures
        dotp(n, vdiv(v, splat(v.len(), k))) == dotp(n, v) / k,
{
    let w = vdiv(v, splat(v.len(), k));
    assert forall|i: int| 0 <= i < v.len() implies #[trigger] w[i] == vscale(v, 1real / k)[i] by {
        lemma_quotient_times_divisor(v[i], k);
    }
    assert(w =~= vscale(v, 1real / k));
    lemma_dot_of_scaled(n, v, 1real / k);
    lemma_quotient_times_divisor(dotp(n, v), k);
    assert((1real / k) * dotp(n, v) == dotp(n, v) * (1real / k)) by (nonlinear_arith);
}

/// Moving along a direction that is perpendicular to the normal of a
/// plane stays on the plane.
pub proof fn lemma_along_the_plane(n: Seq<real>, d: real, o: Seq<real>, dir: Seq<real>, t: real)
    requires
        n.len() == o.len(),
        n.len() == dir.len(),
        on_plane(n, d, o),
        dotp(n, dir) == 0real,
    ensures
        on_plane(n, d, point_at(o, dir, t)),
{
    lemma_dot_of_sum(n, o, vscale(dir, t));
    lemma_dot_of_scaled(n, dir, t);
    assert(t * 0real == 0real) by (nonlinear_arith);
}

/// The point that the test of two planes gives lies on both.
pub proof fn lemma_point_on_both(n1: Seq<real>, d1: real, n2: Seq<real>, d2: real)
    requires
        n1.len() == n2.len(),
        normals_det(n1, n2) != 0real,
    ensures
        on_plane(n1, d1, point_on_both(n1, d1, n2, d2)),
        on_plane(n2, d2, point_on_both(n1, d1, n2, d2)),
{
    let l1 = len2(n1);
    let l2 = len2(n2);
    let d = dotp(n1, n2);
    let det = normals_det(n1, n2);
    let x = d2 * d - d1 * l2;
    let y = d1 * d - d2 * l1;
    let alpha = x / det;
    let beta = y / det;
    // n1·o = alpha |n1|² + beta (n1·n2), and n2·o = alpha (n1·n2) + beta |n2|²
    lemma_dot_of_sum(n1, vscale(n1, alpha), vscale(n2, beta));
    lemma_dot_of_scaled(n1, n1, alpha);
    lemma_dot_of_scaled(n1, n2, beta);
    lemma_dot_of_sum(n2, vscale(n1, alpha), vscale(n2, beta));
    lemma_dot_of_scaled(n2, n1, alpha);
    lemma_dot_of_scaled(n2, n2, beta);
    lemma_dot_commutes(n2, n1);
    let s1 = alpha * l1 + beta * d;
    let s2 = alpha * d + beta * l2;
    // multiplied by the determinant, both are polynomials
    lemma_quotient_times_divisor(x, det);
    lemma_quotient_times_divisor(y, det);
    lemma_times_sum(det, alpha * l1, beta * d);
    lemma_times_sum(det, alpha * d, beta * l2);
    lemma_product_of_three(alpha, l1, det);
    lemma_product_of_three(beta, d, det);
    lemma_product_of_three(alpha, d, det);
    lemma_product_of_three(beta, l2, det);
    assert(s1 * det == x * l1 + y * d);
    assert(s2 * det == x * d + y * l2);
    // the polynomials, multiplied out
    lemma_distribute(d2 * d, d1 * l2, l1);
    lemma_distribute(d1 * d, d2 * l1, d);
    lemma_distribute(d2 * d, d1 * l2, d);
    lemma_distribute(d1 * d, d2 * l1, l2);
    lemma_product_of_three(d2, d, l1);
    lemma_product_of_three(d1, l2, d);
    lemma_times_difference(-d1, l1 * l2, d * d);
    lemma_times_difference(-d2, l1 * l2, d * d);
    assert((-d1) * (l1 * l2) == -((d1 * l2) * l1)) by (nonlinear_arith);
    assert((-d1) * (d * d) == -((d1 * d) * d)) by (nonlinear_arith);
    assert((-d2) * (l1 * l2) == -((d2 * l1) * l2)) by (nonlinear_arith);
    assert((-d2) * (d * d) == -((d2 * d) * d)) by (nonlinear_arith);
    assert(x * l1 + y * d == (-d1) * det);
    assert(x * d + y * l2 == (-d2) * det);
    lemma_cancel(s1, -d1, det);
    lemma_cancel(s2, -d2, det);
}

/// The line that the test of two planes gives lies in both: each of its
/// points, at whatever parameter, lies on both planes.
pub proof fn lemma_line_lies_in_both_planes(
    n1: Seq<real>,
    d1: real,
    n2: Seq<real>,
    d2: real,
    t: real,
)
    requires
        n1.len() == 3,
        n2.len() == 3,
        plane_plane_line(n1, d1, n2, d2).is_some(),
    ensures
        ({
            let (o, dir) = plane_plane_line(n1, d1, n2, d2).unwrap();
            on_plane(n1, d1, point_at(o, dir, t)) && on_plane(n2, d2, point_at(o, dir, t))
        }),
{
    let (o, dir) = plane_plane_line(n1, d1, n2, d2).unwrap();
    lemma_point_on_both(n1, d1, n2, d2);
    lemma_cross_is_perpendicular(n1, n2);
    lemma_dot_commutes(n1, dir);
    lemma_dot_commutes(n2, dir);
    lemma_along_the_plane(n1, d1, o, dir, t);
    lemma_along_the_plane(n2, d2, o, dir, t);
}

/// The determinant of three vectors does not change where they change
/// places in a circle.
pub proof fn lemma_triple_rotates(a: Seq<real>, b: Seq<real>, c: Seq<real>)
    requires
        a.len() == 3,
        b.len() == 3,
        c.len() == 3,
    ensures
        triple(a, b, c) == triple(b, c, a),
        triple(a, b, c) == triple(c, a, b),
{
    lemma_folds3(vmul(a, cross3(b, c)));
    lemma_folds3(vmul(b, cross3(c, a)));
    lemma_folds3(vmul(c, cross3(a, b)));
    let (a0, a1, a2) = (a[0], a[1], a[2]);
    let (b0, b1, b2) = (b[0], b[1], b[2]);
    let (c0, c1, c2) = (c[0], c[1], c[2]);
    lemma_times_difference(a0, b1 * c2, b2 * c1);
    lemma_times_difference(a1, b2 * c0, b0 * c2);
    lemma_times_difference(a2, b0 * c1, b1 * c0);
    lemma_times_difference(b0, c1 * a2, c2 * a1);
    lemma_times_difference(b1, c2 * a0, c0 * a2);
    lemma_times_difference(b2, c0 * a1, c1 * a0);
    lemma_times_difference(c0, a1 * b2, a2 * b1);
    lemma_times_difference(c1, a2 * b0, a0 * b2);
    lemma_times_difference(c2, a0 * b1, a1 * b0);
    // each product of three occurs once in each of the determinants
    lemma_rotate(a0, b1, c2);
    lemma_rotate(b1, c2, a0);
    lemma_rotate(a0, b2, c1);
    lemma_rotate(b2, c1, a0);
    lemma_rotate(a1, b2, c0);
    lemma_rotate(b2, c0, a1);
    lemma_rotate(a1, b0, c2);
    lemma_rotate(b0, c2, a1);
    lemma_rotate(a2, b0, c1);
    lemma_rotate(b0, c1, a2);
    lemma_rotate(a2, b1, c0);
    lemma_rotate(b1, c0, a2);
}

/// The point that the test of three planes gives lies on all three.
pub proof fn lemma_point_of_three_planes(
    n1: Seq<real>,
    d1: real,
    n2: Seq<real>,
    d2: real,
    n3: Seq<real>,
    d3: real,
)
    requires
        n1.len() == 3,
        n2.len() == 3,
        n3.len() == 3,
        three_planes_point(n1, d1, n2, d2, n3, d3).is_some(),
    ensures
        on_plane(n1, d1, three_planes_point(n1, d1, n2, d2, n3, d3).unwrap()),
        on_plane(n2, d2, three_planes_point(n1, d1, n2, d2, n3, d3).unwrap()),
        on_plane(n3, d3, three_planes_point(n1, d1, n2, d2, n3, d3).unwrap()),
{
    let det = triple(n1, n2, n3);
    let v = weighted_crosses(n1, d1, n2, d2, n3, d3);
    lemma_triple_rotates(n1, n2, n3);
    lemma_cross_is_perpendicular(n2, n3);
    lemma_cross_is_perpendicular(n3, n1);
    lemma_cross_is_perpendicular(n1, n2);
    lemma_weighted_dot(n1, n1, d1, n2, d2, n3, d3);
    lemma_weighted_dot(n2, n1, d1, n2, d2, n3, d3);
    lemma_weighted_dot(n3, n1, d1, n2, d2, n3, d3);
    lemma_dot_commutes(n1, cross3(n3, n1));
    lemma_dot_commutes(n1, cross3(n1, n2));
    lemma_dot_commutes(n2, cross3(n2, n3));
    lemma_dot_commutes(n2, cross3(n1, n2));
    lemma_dot_commutes(n3, cross3(n2, n3));
    lemma_dot_commutes(n3, cross3(n3, n1));
    assert(d1 * 0real == 0real && d2 * 0real == 0real && d3 * 0real == 0real)
        by (nonlinear_arith);
    lemma_minus_quotient(d1, det);
    lemma_minus_quotient(d2, det);
    lemma_minus_quotient(d3, det);
    lemma_dot_of_negated(n1, v);
    lemma_dot_of_negated(n2, v);
    lemma_dot_of_negated(n3, v);
    lemma_dot_of_divided(n1, vneg(v), det);
    lemma_dot_of_divided(n2, vneg(v), det);
    lemma_dot_of_divided(n3, vneg(v), det);
}

/// The dot product of `n` with the weighted sum of the three cross
/// products.
pub proof fn lemma_weighted_dot(
    n: Seq<real>,
    n1: Seq<real>,
    d1: real,
    n2: Seq<real>,
    d2: real,
    n3: Seq<real>,
    d3: real,
)
    requires
        n.len() == 3,
        n1.len() == 3,
        n2.len() == 3,
        n3.len() == 3,
    ensures
        dotp(n, weighted_crosses(n1, d1, n2, d2, n3, d3)) == d1 * dotp(n, cross3(n2, n3)) + d2
            * dotp(n, cross3(n3, n1)) + d3 * dotp(n, cross3(n1, n2)),
{
    let c23 = cross3(n2, n3);
    let c31 = cross3(n3, n1);
    let c12 = cross3(n1, n2);
    lemma_dot_of_sum(n, vadd(vscale(c23, d1), vscale(c31, d2)), vscale(c12, d3));
    lemma_dot_of_sum(n, vscale(c23, d1), vscale(c31, d2));
    lemma_dot_of_scaled(n, c23, d1);
    lemma_dot_of_scaled(n, c31, d2);
    lemma_dot_of_scaled(n, c12, d3);
}

/// `-(d k) / k = -d`.
pub proof fn lemma_minus_quotient(d: real, k: real)
    requires
        k != 0real,
    ensures
        (-(d * k)) / k == -d,
{
    assert((-(d * k)) / k == -d) by (nonlinear_arith)
        requires
            k != 0real,
    ;
}

/// Two planes have no line in common exactly where their normals are
/// parallel: the determinant of the test is the squared length of the cross
/// product of the normals, and is zero only where that is the zero vector.
pub proof fn lemma_no_line_where_normals_are_parallel(n1: Seq<real>, n2: Seq<real>)
    requires
        n1.len() == 3,
        n2.len() == 3,
    ensures
        normals_det(n1, n2) == len2(cross3(n1, n2)),
        (normals_det(n1, n2) == 0real) == (cross3(n1, n2) == splat(3, 0real)),
{
    let c = cross3(n1, n2);
    lemma_lagrange3(n1, n2);
    lemma_folds3(vmul(c, c));
    let (x, y, z) = (c[0], c[1], c[2]);
    assert(x * x >= 0real && (x * x == 0real ==> x == 0real)) by (nonlinear_arith);
    assert(y * y >= 0real && (y * y == 0real ==> y == 0real)) by (nonlinear_arith);
    assert(z * z >= 0real && (z * z == 0real ==> z == 0real)) by (nonlinear_arith);
    assert(0real * 0real == 0real) by (nonlinear_arith);
    if len2(c) == 0real {
        assert(c =~= splat(3, 0real));
    }
    if c == splat(3, 0real) {
        assert(x == 0real && y == 0real && z == 0real);
    }
}

} // verus!
