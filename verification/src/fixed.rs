//! Integer helpers shared by the geometry and the control code: quotients
//! rounded toward zero and away from it, clamping, absolute value and the
//! floor square root.

use vstd::prelude::*;

verus! {

/// Quotient rounded toward zero, which is what machine division of signed
/// integers computes.
pub open spec fn quot(a: int, b: int) -> int
    recommends
        b > 0,
{
    if a >= 0 {
        a / b
    } else {
        -((-a) / b)
    }
}

/// What is left of `a` after the truncating quotient by `n` is taken out.
pub open spec fn rest(a: int, n: int) -> int
    recommends
        n > 0,
{
    a - n * quot(a, n)
}

/// Quotient rounded away from zero: the least number, in absolute value,
/// whose product with `b` covers `a`.
pub open spec fn quot_up(a: int, b: int) -> int
    recommends
        b > 0,
{
    if a >= 0 {
        (a + b - 1) / b
    } else {
        -((-a + b - 1) / b)
    }
}

/// One step toward zero.
pub open spec fn shrunk(a: int) -> int {
    if a > 0 {
        a - 1
    } else if a < 0 {
        a + 1
    } else {
        0
    }
}

/// Absolute value of a mathematical integer.
pub open spec fn abs(a: int) -> int {
    if a >= 0 {
        a
    } else {
        -a
    }
}

/// `x` limited to the closed interval from `lo` to `hi`.
pub open spec fn clamp(x: int, lo: int, hi: int) -> int
    recommends
        lo <= hi,
{
    if x < lo {
        lo
    } else if x > hi {
        hi
    } else {
        x
    }
}

/// `r` is the floor of the square root of `n`.
pub open spec fn is_floor_sqrt(n: int, r: int) -> bool {
    0 <= r && r * r <= n && n < (r + 1) * (r + 1)
}

/// The floor of the square root of `n`, for `n >= 0`.
pub open spec fn floor_sqrt(n: int) -> int
    recommends
        n >= 0,
{
    choose|r: int| is_floor_sqrt(n, r)
}

/// Absolute value of a machine integer that is not the most negative one.
pub fn abs_i64(a: i64) -> (r: i64)
    requires
        a > i64::MIN,
    ensures
        r == abs(a as int),
{
    if a >= 0 {
        a
    } else {
        -a
    }
}

/// Limits `x` to the closed interval from `lo` to `hi`.
pub fn clamp_i64(x: i64, lo: i64, hi: i64) -> (r: i64)
    requires
        lo <= hi,
    ensures
        r == clamp(x as int, lo as int, hi as int),
{
    if x < lo {
        lo
    } else if x > hi {
        hi
    } else {
        x
    }
}

/// Largest dividend and divisor, in absolute value, that `divide_up`
/// accepts.
pub const DIVIDE_LIMIT: i128 = 0x1000_0000_0000_0000_0000_0000_0000;

/// Quotient rounded away from zero.
pub fn divide_up(a: i128, d: i128) -> (r: i128)
    requires
        -DIVIDE_LIMIT <= a <= DIVIDE_LIMIT,
        0 < d <= DIVIDE_LIMIT,
    ensures
        r == quot_up(a as int, d as int),
        abs(r as int) <= abs(a as int),
{
    proof {
        lemma_quot_up(a as int, d as int);
    }
    if a >= 0 {
        (a + (d - 1)) / d
    } else {
        -((-a + (d - 1)) / d)
    }
}

/// Floor of the square root of `n`, found by bisection.
pub fn isqrt(n: u128) -> (r: u64)
    ensures
        is_floor_sqrt(n as int, r as int),
        r == floor_sqrt(n as int),
{
    let mut lo: u128 = 0;
    let mut hi: u128 = 0x1_0000_0000_0000_0000u128;
    assert(n < hi * hi) by (nonlinear_arith)
        requires
            hi == 0x1_0000_0000_0000_0000u128,
            n <= u128::MAX,
    ;
    while hi - lo > 1
        invariant
            lo < hi <= 0x1_0000_0000_0000_0000u128,
            lo * lo <= n < hi * hi,
        decreases hi - lo,
    {
        let mid: u128 = lo + (hi - lo) / 2;
        assert(mid * mid <= 0xffff_ffff_ffff_ffffu128 * 0xffff_ffff_ffff_ffffu128)
            by (nonlinear_arith)
            requires
                0 <= mid <= 0xffff_ffff_ffff_ffffu128,
        ;
        if mid * mid <= n {
            lo = mid;
        } else {
            hi = mid;
        }
    }
    proof {
        lemma_floor_sqrt_is(n as int, lo as int);
    }
    lo as u64
}

/// The truncating quotient has the sign of the dividend and is no larger in
/// absolute value; what is left has the sign of the dividend too and is
/// smaller than the divisor in absolute value.
pub proof fn lemma_quot(a: int, n: int)
    requires
        n > 0,
    ensures
        a >= 0 ==> 0 <= quot(a, n) <= a && 0 <= rest(a, n) < n,
        a <= 0 ==> a <= quot(a, n) <= 0 && -n < rest(a, n) <= 0,
        abs(quot(a, n)) <= abs(a),
        abs(n * quot(a, n)) <= abs(a),
        quot(-a, n) == -quot(a, n),
{
    if a >= 0 {
        assert(a == n * (a / n) + a % n && 0 <= a % n < n && 0 <= a / n <= a)
            by (nonlinear_arith)
            requires
                n > 0,
                a >= 0,
        ;
    } else {
        let b = -a;
        assert(b == n * (b / n) + b % n && 0 <= b % n < n && 0 <= b / n <= b)
            by (nonlinear_arith)
            requires
                n > 0,
                b >= 0,
        ;
        assert(n * (-(b / n)) == -(n * (b / n))) by (nonlinear_arith);
    }
    if a == 0 {
        assert(0int / n == 0) by (nonlinear_arith)
            requires
                n > 0,
        ;
    }
}

/// The quotient rounded away from zero has the sign of the dividend, is no
/// larger in absolute value, and times the divisor covers the dividend by
/// less than the divisor.
pub proof fn lemma_quot_up(a: int, n: int)
    requires
        n > 0,
    ensures
        a >= 0 ==> 0 <= quot_up(a, n) <= a && a <= n * quot_up(a, n) < a + n,
        a <= 0 ==> a <= quot_up(a, n) <= 0 && a - n < n * quot_up(a, n) <= a,
        abs(quot_up(a, n)) <= abs(a),
        abs(n * quot_up(a, n)) >= abs(a),
        abs(n * quot_up(a, n)) < abs(a) + n,
        abs(n * quot_up(a, n) - a) < n,
        quot_up(-a, n) == -quot_up(a, n),
{
    let b = abs(a) + n - 1;
    assert(b == n * (b / n) + b % n && 0 <= b % n < n && 0 <= b / n) by (nonlinear_arith)
        requires
            n > 0,
            b >= 0,
    ;
    let q = b / n;
    assert(q <= abs(a)) by (nonlinear_arith)
        requires
            n * q <= abs(a) + n - 1,
            n >= 1,
            q >= 0,
            abs(a) >= 0,
    ;
    assert(n * (-q) == -(n * q)) by (nonlinear_arith);
}

/// Two floors of the same square root are the same number.
pub proof fn lemma_floor_sqrt_unique(n: int, r: int, s: int)
    requires
        is_floor_sqrt(n, r),
        is_floor_sqrt(n, s),
    ensures
        r == s,
{
    if r < s {
        assert((r + 1) * (r + 1) <= s * s) by (nonlinear_arith)
            requires
                0 <= r,
                r + 1 <= s,
        ;
    } else if s < r {
        assert((s + 1) * (s + 1) <= r * r) by (nonlinear_arith)
            requires
                0 <= s,
                s + 1 <= r,
        ;
    }
}

/// Any witness of the floor square root is the floor square root.
pub proof fn lemma_floor_sqrt_is(n: int, r: int)
    requires
        is_floor_sqrt(n, r),
    ensures
        floor_sqrt(n) == r,
{
    lemma_floor_sqrt_unique(n, r, floor_sqrt(n));
}

/// Every number that is not negative has a floor square root.
pub proof fn lemma_floor_sqrt_exists(n: int)
    requires
        n >= 0,
    ensures
        is_floor_sqrt(n, floor_sqrt(n)),
    decreases n,
{
    if n == 0 {
        assert(is_floor_sqrt(0, 0));
    } else {
        lemma_floor_sqrt_exists(n - 1);
        let r = floor_sqrt(n - 1);
        if n < (r + 1) * (r + 1) {
            assert(is_floor_sqrt(n, r));
        } else {
            assert((r + 2) * (r + 2) > (r + 1) * (r + 1)) by (nonlinear_arith)
                requires
                    r >= 0,
            ;
            assert(is_floor_sqrt(n, r + 1));
        }
    }
}

/// The floor square root is monotone and dominates every integer whose
/// square fits under `n`.
pub proof fn lemma_floor_sqrt_lower(n: int, r: int, k: int)
    requires
        is_floor_sqrt(n, r),
        0 <= k,
        k * k <= n,
    ensures
        k <= r,
{
    if k > r {
        assert((r + 1) * (r + 1) <= k * k) by (nonlinear_arith)
            requires
                0 <= r,
                r + 1 <= k,
        ;
    }
}

} // verus!
