//! The mathematical model: a vector or a point is the sequence of the real
//! numbers of its components.

use vstd::prelude::*;
use crate::num::BaseNum;
use crate::num::min_real;
use crate::num::max_real;
use crate::num::is_trunc_rem;

verus! {

/// `n` components, each equal to `k`.
pub open spec fn splat(n: nat, k: real) -> Seq<real> {
    Seq::new(n, |i: int| k)
}

/// Component-wise sum.
pub open spec fn vadd(a: Seq<real>, b: Seq<real>) -> Seq<real> {
    Seq::new(a.len(), |i: int| a[i] + b[i])
}

/// Component-wise difference.
pub open spec fn vsub(a: Seq<real>, b: Seq<real>) -> Seq<real> {
    Seq::new(a.len(), |i: int| a[i] - b[i])
}

/// Component-wise product.
pub open spec fn vmul(a: Seq<real>, b: Seq<real>) -> Seq<real> {
    Seq::new(a.len(), |i: int| a[i] * b[i])
}

/// Component-wise quotient.
pub open spec fn vdiv(a: Seq<real>, b: Seq<real>) -> Seq<real> {
    Seq::new(a.len(), |i: int| a[i] / b[i])
}

/// Component-wise negation.
pub open spec fn vneg(a: Seq<real>) -> Seq<real> {
    Seq::new(a.len(), |i: int| -a[i])
}

/// Each component times `k`.
pub open spec fn vscale(a: Seq<real>, k: real) -> Seq<real> {
    Seq::new(a.len(), |i: int| a[i] * k)
}

/// `S` can compute the remainder of the component `i` of `a` by that of `b`.
pub open spec fn rem_fits_at<S: BaseNum>(a: Seq<real>, b: Seq<real>, i: int) -> bool {
    b[i] != 0real && S::rem_fits(a[i], b[i])
}

/// `S` can compute the remainder of each component of `a` by that of `b`.
pub open spec fn vrem_fits<S: BaseNum>(a: Seq<real>, b: Seq<real>) -> bool {
    forall|i: int| 0 <= i < a.len() ==> #[trigger] rem_fits_at::<S>(a, b, i)
}

/// The component `i` of `r` is the remainder of that of `a` by that of `b`.
pub open spec fn is_rem_at(a: Seq<real>, b: Seq<real>, r: Seq<real>, i: int) -> bool {
    is_trunc_rem(a[i], b[i], r[i])
}

/// Each component of `r` is the remainder of that of `a` by that of `b`,
/// where the quotient is rounded towards zero.
pub open spec fn is_vrem(a: Seq<real>, b: Seq<real>, r: Seq<real>) -> bool {
    r.len() == a.len() && forall|i: int| 0 <= i < a.len() ==> #[trigger] is_rem_at(a, b, r, i)
}

/// The sum of the components, added up from the first to the last.
pub open spec fn sum(a: Seq<real>) -> real
    decreases a.len(),
{
    if a.len() == 0 {
        0real
    } else {
        sum(a.drop_last()) + a.last()
    }
}

/// The product of the components, multiplied from the first to the last.
pub open spec fn product(a: Seq<real>) -> real
    decreases a.len(),
{
    if a.len() == 0 {
        1real
    } else {
        product(a.drop_last()) * a.last()
    }
}

/// The least component of a sequence that is not empty.
pub open spec fn minimum(a: Seq<real>) -> real
    decreases a.len(),
{
    if a.len() <= 1 {
        a[0]
    } else {
        min_real(minimum(a.drop_last()), a.last())
    }
}

/// The greatest component of a sequence that is not empty.
pub open spec fn maximum(a: Seq<real>) -> real
    decreases a.len(),
{
    if a.len() <= 1 {
        a[0]
    } else {
        max_real(maximum(a.drop_last()), a.last())
    }
}

/// The dot product.
pub open spec fn dotp(a: Seq<real>, b: Seq<real>) -> real {
    sum(vmul(a, b))
}

/// The squared length.
pub open spec fn len2(a: Seq<real>) -> real {
    dotp(a, a)
}

/// `a + (b - a) * t`, component by component.
pub open spec fn vlerp(a: Seq<real>, b: Seq<real>, t: real) -> Seq<real> {
    vadd(a, vscale(vsub(b, a), t))
}

/// No component is zero.
pub open spec fn none_zero(a: Seq<real>) -> bool {
    forall|i: int| 0 <= i < a.len() ==> #[trigger] a[i] != 0real
}

/// The scalar type `S` holds each component of `a`.
pub open spec fn all_hold<S: BaseNum>(a: Seq<real>) -> bool {
    forall|i: int| 0 <= i < a.len() ==> S::holds(#[trigger] a[i])
}

/// `S` holds every sum that adding up the components of `a` passes through.
pub open spec fn sums_hold<S: BaseNum>(a: Seq<real>) -> bool {
    forall|n: int| 2 <= n <= a.len() ==> S::holds(#[trigger] sum(a.take(n)))
}

/// `S` holds every product that multiplying the components of `a` passes through.
pub open spec fn products_hold<S: BaseNum>(a: Seq<real>) -> bool {
    forall|n: int| 2 <= n <= a.len() ==> S::holds(#[trigger] product(a.take(n)))
}

/// `S` can compute the dot product of `a` and `b`.
pub open spec fn dot_fits<S: BaseNum>(a: Seq<real>, b: Seq<real>) -> bool {
    all_hold::<S>(vmul(a, b)) && sums_hold::<S>(vmul(a, b))
}

/// `S` can compute `a + (b - a) * t`.
pub open spec fn lerp_fits<S: BaseNum>(a: Seq<real>, b: Seq<real>, t: real) -> bool {
    all_hold::<S>(vsub(b, a)) && all_hold::<S>(vscale(vsub(b, a), t)) && all_hold::<S>(
        vlerp(a, b, t),
    )
}

/// The perpendicular dot product of two vectors of two components:
/// `a.x * b.y - a.y * b.x`.
pub open spec fn perp2(a: Seq<real>, b: Seq<real>) -> real {
    a[0] * b[1] - a[1] * b[0]
}

/// `S` can compute the perpendicular dot product of `a` and `b`.
pub open spec fn perp_fits<S: BaseNum>(a: Seq<real>, b: Seq<real>) -> bool {
    S::holds(a[0] * b[1]) && S::holds(a[1] * b[0]) && S::holds(perp2(a, b))
}

/// The cross product of two vectors of three components.
pub open spec fn cross3(a: Seq<real>, b: Seq<real>) -> Seq<real> {
    seq![a[1] * b[2] - a[2] * b[1], a[2] * b[0] - a[0] * b[2], a[0] * b[1] - a[1] * b[0]]
}

/// `S` can compute the cross product of `a` and `b`.
pub open spec fn cross_fits<S: BaseNum>(a: Seq<real>, b: Seq<real>) -> bool {
    &&& S::holds(a[1] * b[2])
    &&& S::holds(a[2] * b[1])
    &&& S::holds(a[2] * b[0])
    &&& S::holds(a[0] * b[2])
    &&& S::holds(a[0] * b[1])
    &&& S::holds(a[1] * b[0])
    &&& all_hold::<S>(cross3(a, b))
}

/// Approximate equality of vectors. With `s` the larger of the two squared
/// lengths: `|a - b|² <= eps² * s` where `s > 1`, and `|a - b|² <= eps²`
/// otherwise.
pub open spec fn vec_approx_eq(a: Seq<real>, b: Seq<real>, eps: real) -> bool {
    let s = max_real(len2(a), len2(b));
    if s > 1real {
        len2(vsub(a, b)) <= eps * eps * s
    } else {
        len2(vsub(a, b)) <= eps * eps
    }
}

/// `S` can compute the approximate equality of `a` and `b`.
pub open spec fn vec_approx_fits<S: BaseNum>(a: Seq<real>, b: Seq<real>, eps: real) -> bool {
    let s = max_real(len2(a), len2(b));
    &&& dot_fits::<S>(a, a)
    &&& dot_fits::<S>(b, b)
    &&& all_hold::<S>(vsub(a, b))
    &&& dot_fits::<S>(vsub(a, b), vsub(a, b))
    &&& S::holds(eps * eps)
    &&& (s > 1real ==> S::holds(eps * eps * s))
}

/// The folds of a sequence of two components.
pub proof fn lemma_folds2(a: Seq<real>)
    requires
        a.len() == 2,
    ensures
        sum(a) == a[0] + a[1],
        product(a) == a[0] * a[1],
        minimum(a) == min_real(a[0], a[1]),
        maximum(a) == max_real(a[0], a[1]),
        a.take(2) == a,
{
    reveal_with_fuel(sum, 3);
    reveal_with_fuel(product, 3);
    reveal_with_fuel(minimum, 3);
    reveal_with_fuel(maximum, 3);
    assert(a.take(2) =~= a);
}

/// The folds of a sequence of three components.
pub proof fn lemma_folds3(a: Seq<real>)
    requires
        a.len() == 3,
    ensures
        sum(a) == a[0] + a[1] + a[2],
        product(a) == a[0] * a[1] * a[2],
        minimum(a) == min_real(min_real(a[0], a[1]), a[2]),
        maximum(a) == max_real(max_real(a[0], a[1]), a[2]),
        sum(a.take(2)) == a[0] + a[1],
        product(a.take(2)) == a[0] * a[1],
        a.take(3) == a,
{
    lemma_folds2(a.take(2));
    assert(a.drop_last() =~= a.take(2));
    assert(a.take(3) =~= a);
}

/// The folds of a sequence of four components.
pub proof fn lemma_folds4(a: Seq<real>)
    requires
        a.len() == 4,
    ensures
        sum(a) == a[0] + a[1] + a[2] + a[3],
        product(a) == a[0] * a[1] * a[2] * a[3],
        minimum(a) == min_real(min_real(min_real(a[0], a[1]), a[2]), a[3]),
        maximum(a) == max_real(max_real(max_real(a[0], a[1]), a[2]), a[3]),
        sum(a.take(2)) == a[0] + a[1],
        product(a.take(2)) == a[0] * a[1],
        sum(a.take(3)) == a[0] + a[1] + a[2],
        product(a.take(3)) == a[0] * a[1] * a[2],
        a.take(4) == a,
{
    lemma_folds3(a.take(3));
    assert(a.take(3).take(2) =~= a.take(2));
    assert(a.drop_last() =~= a.take(3));
    assert(a.take(4) =~= a);
}

/// What it is for `S` to hold the sums of a sequence of two components.
pub proof fn lemma_sums_hold2<S: BaseNum>(a: Seq<real>)
    requires
        a.len() == 2,
    ensures
        sums_hold::<S>(a) <==> S::holds(a[0] + a[1]),
{
    lemma_folds2(a);
    if S::holds(a[0] + a[1]) {
        assert forall|n: int| 2 <= n <= a.len() implies S::holds(#[trigger] sum(a.take(n))) by {
        }
    }
}

/// What it is for `S` to hold the sums of a sequence of three components.
pub proof fn lemma_sums_hold3<S: BaseNum>(a: Seq<real>)
    requires
        a.len() == 3,
    ensures
        sums_hold::<S>(a) <==> S::holds(a[0] + a[1]) && S::holds(a[0] + a[1] + a[2]),
{
    lemma_folds3(a);
    if S::holds(a[0] + a[1]) && S::holds(a[0] + a[1] + a[2]) {
        assert forall|n: int| 2 <= n <= a.len() implies S::holds(#[trigger] sum(a.take(n))) by {
        }
    }
}

/// What it is for `S` to hold the sums of a sequence of four components.
pub proof fn lemma_sums_hold4<S: BaseNum>(a: Seq<real>)
    requires
        a.len() == 4,
    ensures
        sums_hold::<S>(a) <==> S::holds(a[0] + a[1]) && S::holds(a[0] + a[1] + a[2]) && S::holds(a[0] + a[1] + a[2] + a[3]),
{
    lemma_folds4(a);
    if S::holds(a[0] + a[1]) && S::holds(a[0] + a[1] + a[2]) && S::holds(a[0] + a[1] + a[2] + a[3]) {
        assert forall|n: int| 2 <= n <= a.len() implies S::holds(#[trigger] sum(a.take(n))) by {
        }
    }
}

/// What it is for `S` to hold the products of a sequence of two components.
pub proof fn lemma_products_hold2<S: BaseNum>(a: Seq<real>)
    requires
        a.len() == 2,
    ensures
        products_hold::<S>(a) <==> S::holds(a[0] * a[1]),
{
    lemma_folds2(a);
    if S::holds(a[0] * a[1]) {
        assert forall|n: int| 2 <= n <= a.len() implies S::holds(#[trigger] product(a.take(n))) by {
        }
    }
}

/// What it is for `S` to hold the products of a sequence of three components.
pub proof fn lemma_products_hold3<S: BaseNum>(a: Seq<real>)
    requires
        a.len() == 3,
    ensures
        products_hold::<S>(a) <==> S::holds(a[0] * a[1]) && S::holds(a[0] * a[1] * a[2]),
{
    lemma_folds3(a);
    if S::holds(a[0] * a[1]) && S::holds(a[0] * a[1] * a[2]) {
        assert forall|n: int| 2 <= n <= a.len() implies S::holds(#[trigger] product(a.take(n))) by {
        }
    }
}

/// What it is for `S` to hold the products of a sequence of four components.
pub proof fn lemma_products_hold4<S: BaseNum>(a: Seq<real>)
    requires
        a.len() == 4,
    ensures
        products_hold::<S>(a) <==> S::holds(a[0] * a[1]) && S::holds(a[0] * a[1] * a[2]) && S::holds(a[0] * a[1] * a[2] * a[3]),
{
    lemma_folds4(a);
    if S::holds(a[0] * a[1]) && S::holds(a[0] * a[1] * a[2]) && S::holds(a[0] * a[1] * a[2] * a[3]) {
        assert forall|n: int| 2 <= n <= a.len() implies S::holds(#[trigger] product(a.take(n))) by {
        }
    }
}

} // verus!
