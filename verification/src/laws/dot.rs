//! Sums, dot products and lengths, for vectors of every dimension.

use vstd::prelude::*;
use crate::model::{vlerp, dotp, lemma_folds3, len2, sum, vmul, vscale, vsub};

verus! {

/// The sum of the components scaled by `k` is `k` times their sum.
pub proof fn lemma_sum_of_scaled(s: Seq<real>, k: real)
    ensures
        sum(vscale(s, k)) == k * sum(s),
    decreases s.len(),
{
    if s.len() == 0 {
        assert(k * 0real == 0real) by (nonlinear_arith);
    } else {
        lemma_sum_of_scaled(s.drop_last(), k);
        assert(vscale(s, k).drop_last() =~= vscale(s.drop_last(), k));
        let x = sum(s.drop_last());
        let y = s.last();
        assert(k * x + y * k == k * (x + y)) by (nonlinear_arith);
    }
}

/// A sum of components none of which is negative is not negative.
pub proof fn lemma_sum_not_negative(s: Seq<real>)
    requires
        forall|i: int| 0 <= i < s.len() ==> s[i] >= 0real,
    ensures
        sum(s) >= 0real,
    decreases s.len(),
{
    if s.len() > 0 {
        lemma_sum_not_negative(s.drop_last());
    }
}

/// The dot product does not depend on the order of its arguments.
pub proof fn lemma_dot_commutes(a: Seq<real>, b: Seq<real>)
    requires
        a.len() == b.len(),
    ensures
        dotp(a, b) == dotp(b, a),
{
    assert forall|i: int| 0 <= i < a.len() implies #[trigger] vmul(a, b)[i] == vmul(b, a)[i] by {
        assert(a[i] * b[i] == b[i] * a[i]) by (nonlinear_arith);
    }
    assert(vmul(a, b) =~= vmul(b, a));
}

/// Scaling one argument of a dot product scales the product.
pub proof fn lemma_dot_of_scaled(a: Seq<real>, b: Seq<real>, k: real)
    requires
        a.len() == b.len(),
    ensures
        dotp(vscale(a, k), b) == k * dotp(a, b),
        dotp(a, vscale(b, k)) == k * dotp(a, b),
{
    assert forall|i: int| 0 <= i < a.len() implies #[trigger] vmul(vscale(a, k), b)[i] == vscale(
        vmul(a, b),
        k,
    )[i] by {
        assert((a[i] * k) * b[i] == (a[i] * b[i]) * k) by (nonlinear_arith);
    }
    assert(vmul(vscale(a, k), b) =~= vscale(vmul(a, b), k));
    lemma_sum_of_scaled(vmul(a, b), k);
    lemma_dot_commutes(a, vscale(b, k));
    lemma_dot_commutes(a, b);
    assert forall|i: int| 0 <= i < a.len() implies #[trigger] vmul(vscale(b, k), a)[i] == vscale(
        vmul(b, a),
        k,
    )[i] by {
        assert((b[i] * k) * a[i] == (b[i] * a[i]) * k) by (nonlinear_arith);
    }
    assert(vmul(vscale(b, k), a) =~= vscale(vmul(b, a), k));
    lemma_sum_of_scaled(vmul(b, a), k);
}

/// A squared length is not negative.
pub proof fn lemma_len2_not_negative(a: Seq<real>)
    ensures
        len2(a) >= 0real,
{
    assert forall|i: int| 0 <= i < vmul(a, a).len() implies vmul(a, a)[i] >= 0real by {
        assert(a[i] * a[i] >= 0real) by (nonlinear_arith);
    }
    lemma_sum_not_negative(vmul(a, a));
}

/// The squared length of a vector scaled by `k` is `k²` times its own.
pub proof fn lemma_len2_of_scaled(a: Seq<real>, k: real)
    ensures
        len2(vscale(a, k)) == k * k * len2(a),
{
    lemma_dot_of_scaled(a, vscale(a, k), k);
    lemma_dot_of_scaled(a, a, k);
    let l = len2(a);
    assert(k * (k * l) == k * k * l) by (nonlinear_arith);
}

/// A vector scaled to a length has that length, where the scalar type takes
/// roots exactly.
///
/// `normalize_to` scales by `length * k`, with `k` what the scalar type
/// returns for one over the root of the squared length. Where `k` is exact,
/// `k² |a|² = 1`, the result has the squared length `length²`; so a
/// normalized vector has the length one, which asks that `a` be not zero.
pub proof fn lemma_normalized_length(a: Seq<real>, length: real, k: real)
    requires
        k * k * len2(a) == 1real,
    ensures
        len2(vscale(a, length * k)) == length * length,
        len2(vscale(a, 1real * k)) == 1real,
{
    lemma_len2_of_scaled(a, length * k);
    lemma_len2_of_scaled(a, 1real * k);
    let l = len2(a);
    assert((length * k) * (length * k) * l == length * length) by (nonlinear_arith)
        requires
            k * k * l == 1real,
    ;
    assert((1real * k) * (1real * k) * l == 1real) by (nonlinear_arith)
        requires
            k * k * l == 1real,
    ;
}

/// The dot product with a difference is the difference of the dot products,
/// for vectors of three components.
pub proof fn lemma_dot_of_difference3(n: Seq<real>, x: Seq<real>, a: Seq<real>)
    requires
        n.len() == 3,
        x.len() == 3,
        a.len() == 3,
    ensures
        dotp(n, vsub(x, a)) == dotp(n, x) - dotp(n, a),
{
    lemma_folds3(vmul(n, vsub(x, a)));
    lemma_folds3(vmul(n, x));
    lemma_folds3(vmul(n, a));
    assert(n[0] * (x[0] - a[0]) == n[0] * x[0] - n[0] * a[0]) by (nonlinear_arith);
    assert(n[1] * (x[1] - a[1]) == n[1] * x[1] - n[1] * a[1]) by (nonlinear_arith);
    assert(n[2] * (x[2] - a[2]) == n[2] * x[2] - n[2] * a[2]) by (nonlinear_arith);
}

/// Interpolating by zero gives the first vector and by one the second,
/// for two vectors of one dimension.
pub proof fn lemma_lerp_ends(a: Seq<real>, b: Seq<real>)
    requires
        a.len() == b.len(),
    ensures
        vlerp(a, b, 0real) == a,
        vlerp(a, b, 1real) == b,
{
    assert forall|i: int| 0 <= i < a.len() implies #[trigger] vlerp(a, b, 0real)[i] == a[i] by {
        assert((b[i] - a[i]) * 0real == 0real) by (nonlinear_arith);
    }
    assert forall|i: int| 0 <= i < a.len() implies #[trigger] vlerp(a, b, 1real)[i] == b[i] by {
        assert((b[i] - a[i]) * 1real == b[i] - a[i]) by (nonlinear_arith);
    }
    assert(vlerp(a, b, 0real) =~= a);
    assert(vlerp(a, b, 1real) =~= b);
}

} // verus!
