//! Facts about products and squares of integers, each small enough for the
//! solver to prove when asked about it alone.

use vstd::prelude::*;
use crate::fixed::abs;

verus! {

/// A product is bounded by the product of the bounds of its factors.
pub proof fn lemma_product_bound(a: int, b: int, la: int, lb: int)
    requires
        -la <= a <= la,
        -lb <= b <= lb,
    ensures
        -(la * lb) <= a * b <= la * lb,
{
    assert((la - a) * (lb - b) >= 0) by (nonlinear_arith)
        requires
            la - a >= 0,
            lb - b >= 0,
    ;
    assert((la + a) * (lb + b) >= 0) by (nonlinear_arith)
        requires
            la + a >= 0,
            lb + b >= 0,
    ;
    assert((la - a) * (lb + b) >= 0) by (nonlinear_arith)
        requires
            la - a >= 0,
            lb + b >= 0,
    ;
    assert((la + a) * (lb - b) >= 0) by (nonlinear_arith)
        requires
            la + a >= 0,
            lb - b >= 0,
    ;
    assert((la - a) * (lb - b) == la * lb - la * b - a * lb + a * b) by (nonlinear_arith);
    assert((la + a) * (lb + b) == la * lb + la * b + a * lb + a * b) by (nonlinear_arith);
    assert((la - a) * (lb + b) == la * lb + la * b - a * lb - a * b) by (nonlinear_arith);
    assert((la + a) * (lb - b) == la * lb - la * b + a * lb - a * b) by (nonlinear_arith);
}

/// `(a * b) * (c * d)` with the factors paired the other way.
pub proof fn lemma_swap_pairs(a: int, b: int, c: int, d: int)
    ensures
        (a * b) * (c * d) == (a * d) * (c * b),
{
    assert((a * b) * (c * d) == (a * d) * (c * b)) by (nonlinear_arith);
}

/// Twice a product is at most the sum of the squares.
pub proof fn lemma_twice_product(p: int, q: int)
    ensures
        2 * (p * q) <= p * p + q * q,
{
    assert((p - q) * (p - q) >= 0) by (nonlinear_arith);
    assert((p - q) * (p - q) == p * p + q * q - 2 * (p * q)) by (nonlinear_arith);
}

/// The square of a sum of three terms, written out.
pub proof fn lemma_square_of_sum(p: int, q: int, r: int)
    ensures
        (p + q + r) * (p + q + r) == p * p + q * q + r * r + 2 * (p * q) + 2 * (p * r) + 2 * (q
            * r),
{
    assert((p + q + r) * (p + q + r) == p * p + q * q + r * r + 2 * (p * q) + 2 * (p * r) + 2
        * (q * r)) by (nonlinear_arith);
}

/// The product of two sums of three terms, written out.
pub proof fn lemma_product_of_sums(a: int, b: int, c: int, x: int, y: int, z: int)
    ensures
        (a + b + c) * (x + y + z) == a * x + a * y + a * z + b * x + b * y + b * z + c * x + c
            * y + c * z,
{
    let s = x + y + z;
    assert((a + b + c) * s == a * s + b * s + c * s) by (nonlinear_arith);
    lemma_times_sum(a, x, y, z);
    lemma_times_sum(b, x, y, z);
    lemma_times_sum(c, x, y, z);
}

/// A factor times a sum of three terms, written out.
pub proof fn lemma_times_sum(k: int, x: int, y: int, z: int)
    ensures
        k * (x + y + z) == k * x + k * y + k * z,
{
    assert(k * (x + y + z) == k * x + k * y + k * z) by (nonlinear_arith);
}

/// A factor times a sum and times a difference, written out, on either
/// side.
pub proof fn lemma_times_pair(k: int, x: int, y: int)
    ensures
        k * (x + y) == k * x + k * y,
        k * (x - y) == k * x - k * y,
        (x + y) * k == x * k + y * k,
        (x - y) * k == x * k - y * k,
        x * k == k * x,
{
    assert(k * (x + y) == k * x + k * y) by (nonlinear_arith);
    assert(k * (x - y) == k * x - k * y) by (nonlinear_arith);
    assert((x + y) * k == x * k + y * k) by (nonlinear_arith);
    assert((x - y) * k == x * k - y * k) by (nonlinear_arith);
    assert(x * k == k * x) by (nonlinear_arith);
}

/// A product of three factors, grouped either way.
pub proof fn lemma_regroup(a: int, b: int, c: int)
    ensures
        a * (b * c) == (a * b) * c,
{
    assert(a * (b * c) == (a * b) * c) by (nonlinear_arith);
}

/// A number that is no larger in absolute value has no larger a square.
pub proof fn lemma_square_monotone(x: int, y: int)
    requires
        abs(x) <= abs(y),
    ensures
        x * x <= y * y,
{
    assert(x * x <= y * y) by (nonlinear_arith)
        requires
            (x <= y && -x <= y && y >= 0) || (x <= -y && -x <= -y && y <= 0),
    ;
}

/// The square of a product is the product of the squares.
pub proof fn lemma_square_of_scaled(d: int, b: int)
    ensures
        (d * b) * (d * b) == (d * d) * (b * b),
{
    assert((d * b) * (d * b) == (d * d) * (b * b)) by (nonlinear_arith);
}

} // verus!
