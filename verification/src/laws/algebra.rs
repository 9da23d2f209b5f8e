//! Identities of the arithmetic of real numbers that the other laws use.

use vstd::prelude::*;

verus! {

/// A difference times a number is the difference of the products.
pub proof fn lemma_distribute(a: real, b: real, w: real)
    ensures
        (a - b) * w == a * w - b * w,
{
    assert((a - b) * w == a * w - b * w) by (nonlinear_arith);
}

/// A number times a sum is the sum of the products.
pub proof fn lemma_times_sum(w: real, x: real, y: real)
    ensures
        w * (x + y) == w * x + w * y,
        (x + y) * w == x * w + y * w,
{
    assert(w * (x + y) == w * x + w * y) by (nonlinear_arith);
    assert((x + y) * w == x * w + y * w) by (nonlinear_arith);
}

/// A product of three numbers does not depend on their order.
pub proof fn lemma_product_of_three(x: real, y: real, z: real)
    ensures
        (x * y) * z == (y * x) * z,
        (x * y) * z == (x * z) * y,
        (x * y) * z == (z * x) * y,
        (x * y) * z == (y * z) * x,
        (x * y) * z == (z * y) * x,
{
    assert((x * y) * z == (y * x) * z) by (nonlinear_arith);
    assert((x * y) * z == (x * z) * y) by (nonlinear_arith);
    assert((x * y) * z == (z * x) * y) by (nonlinear_arith);
    assert((x * y) * z == (y * z) * x) by (nonlinear_arith);
    assert((x * y) * z == (z * y) * x) by (nonlinear_arith);
}

/// `(x1 y1)(x2 y2) = (x1 y2)(x2 y1)`.
pub proof fn lemma_crossed_products(x1: real, y1: real, x2: real, y2: real)
    ensures
        (x1 * y1) * (x2 * y2) == (x1 * y2) * (x2 * y1),
{
    let p = x1 * y1;
    let q = x2 * y2;
    let r = x1 * y2;
    let s = x2 * y1;
    // p * q == (x1 * q) * y1, and x1 * q == r * x2
    lemma_product_of_three(x1, y1, q);
    assert(x1 * q == r * x2) by (nonlinear_arith)
        requires
            q == x2 * y2,
            r == x1 * y2,
    ;
    assert((r * x2) * y1 == r * s) by (nonlinear_arith)
        requires
            s == x2 * y1,
    ;
}

/// `x² y² = (x y)²`.
pub proof fn lemma_square_of_product(x: real, y: real)
    ensures
        (x * x) * (y * y) == (x * y) * (x * y),
{
    lemma_crossed_products(x, x, y, y);
    assert(y * x == x * y) by (nonlinear_arith);
}

/// `(x + y)² = x² + y² + 2xy`.
pub proof fn lemma_square_of_sum(x: real, y: real)
    ensures
        (x + y) * (x + y) == x * x + y * y + 2real * (x * y),
{
    assert((x + y) * (x + y) == x * x + y * y + 2real * (x * y)) by (nonlinear_arith);
}

/// `(x - y)² = x² + y² - 2xy`.
pub proof fn lemma_square_of_difference(x: real, y: real)
    ensures
        (x - y) * (x - y) == x * x + y * y - 2real * (x * y),
{
    assert((x - y) * (x - y) == x * x + y * y - 2real * (x * y)) by (nonlinear_arith);
}

/// The product of two sums of three, multiplied out.
pub proof fn lemma_product_of_sums3(
    x0: real,
    x1: real,
    x2: real,
    y0: real,
    y1: real,
    y2: real,
)
    ensures
        (x0 + x1 + x2) * (y0 + y1 + y2) == x0 * y0 + x0 * y1 + x0 * y2 + x1 * y0 + x1 * y1 + x1
            * y2 + x2 * y0 + x2 * y1 + x2 * y2,
{
    let sx = x0 + x1 + x2;
    lemma_times_sum(sx, y0 + y1, y2);
    lemma_times_sum(sx, y0, y1);
    lemma_times_sum(y0, x0 + x1, x2);
    lemma_times_sum(y0, x0, x1);
    lemma_times_sum(y1, x0 + x1, x2);
    lemma_times_sum(y1, x0, x1);
    lemma_times_sum(y2, x0 + x1, x2);
    lemma_times_sum(y2, x0, x1);
}

/// A number times a difference is the difference of the products.
pub proof fn lemma_times_difference(w: real, x: real, y: real)
    ensures
        w * (x - y) == w * x - w * y,
{
    assert(w * (x - y) == w * x - w * y) by (nonlinear_arith);
}

/// `x (y z) = y (z x)`.
pub proof fn lemma_rotate(x: real, y: real, z: real)
    ensures
        x * (y * z) == y * (z * x),
{
    assert(x * (y * z) == y * (z * x)) by (nonlinear_arith);
}

/// A quotient times its divisor is the dividend.
pub proof fn lemma_quotient_times_divisor(x: real, k: real)
    requires
        k != 0real,
    ensures
        (x / k) * k == x,
        x / k == x * (1real / k),
{
    assert((x / k) * k == x) by (nonlinear_arith)
        requires
            k != 0real,
    ;
    assert(x / k == x * (1real / k)) by (nonlinear_arith)
        requires
            k != 0real,
    ;
}

/// Two numbers that give the same product with a number that is not zero
/// are equal.
pub proof fn lemma_cancel(x: real, y: real, k: real)
    requires
        k != 0real,
        x * k == y * k,
    ensures
        x == y,
{
    assert(x == y) by (nonlinear_arith)
        requires
            k != 0real,
            x * k == y * k,
    ;
}

} // verus!
