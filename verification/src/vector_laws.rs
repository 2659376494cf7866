//! What holds of the vector operations: the split of a vector against a
//! basis is exact, a unit direction is as long and points as rounding
//! allows, and the bounds that keep the machine arithmetic in range.

use vstd::prelude::*;
use crate::arith::{
    lemma_product_bound, lemma_product_of_sums, lemma_regroup, lemma_square_monotone,
    lemma_square_of_scaled, lemma_square_of_sum, lemma_swap_pairs, lemma_times_pair,
    lemma_times_sum, lemma_twice_product,
};
use crate::fixed::{
    abs, floor_sqrt, is_floor_sqrt, lemma_floor_sqrt_exists, lemma_floor_sqrt_lower,
    lemma_quot_up, quot_up, shrunk,
};
use crate::vector::{Vector, UNIT};

verus! {

/// The split of a vector against a basis. The two parts add up to the
/// vector; the part across the basis has no component along it, and none
/// along the other part; the squared lengths of the parts add up to that of
/// the vector; and the part along the basis has the vector's own dot product
/// with the basis. Both parts are multiplied by the squared length of the
/// basis, and so is what they are held against.
pub proof fn law_decompose(basis: Vector, v: Vector)
    ensures
        v.projected(basis).plus(v.rejected(basis)) == v.scaled(basis.norm_sq()),
        v.rejected(basis).dot(basis) == 0,
        v.projected(basis).dot(v.rejected(basis)) == 0,
        v.projected(basis).norm_sq() + v.rejected(basis).norm_sq() == basis.norm_sq()
            * basis.norm_sq() * v.norm_sq(),
        v.projected(basis).dot(basis) == basis.norm_sq() * basis.dot(v),
{
    let n = basis.norm_sq();
    let d = basis.dot(v);
    let along = v.projected(basis);
    let across = v.rejected(basis);
    law_rejected_is_perpendicular(v, basis);
    lemma_dot_squared(across, basis);
    lemma_dot_of_scaled(basis, d, across);
    lemma_dot_of_scaled(basis, d, basis);
    assert(d * 0 == 0);
    lemma_times_pair(d, n, 0);
    lemma_norm_sq_of_sum(along, across);
    lemma_dot_of_scaled(v, n, v);
    assert(along.plus(across) == v.scaled(n));
}

/// Projection is linear in the projected vector: the part of `s` times `v`
/// plus `w` along a basis is `s` times the part of `v` plus the part of `w`.
pub proof fn law_project_is_linear(v: Vector, w: Vector, onto: Vector, s: int)
    ensures
        v.scaled(s).plus(w).projected(onto) == v.projected(onto).scaled(s).plus(
            w.projected(onto),
        ),
        v.scaled(s).plus(w).rejected(onto) == v.rejected(onto).scaled(s).plus(w.rejected(onto)),
{
    let n = onto.norm_sq();
    let dv = onto.dot(v);
    let dw = onto.dot(w);
    let sv = v.scaled(s);
    lemma_dot_squared(onto, sv);
    lemma_dot_squared(onto, v);
    lemma_dot_of_scaled(v, s, onto);
    lemma_times_pair(onto.x, sv.x, w.x);
    lemma_times_pair(onto.y, sv.y, w.y);
    lemma_times_pair(onto.z, sv.z, w.z);
    let d = onto.dot(sv.plus(w));
    assert(d == s * dv + dw);
    lemma_linear_component(s, dv, dw, n, onto.x, v.x, w.x);
    lemma_linear_component(s, dv, dw, n, onto.y, v.y, w.y);
    lemma_linear_component(s, dv, dw, n, onto.z, v.z, w.z);
}

/// A multiple of the basis lies along it entirely, and a vector across the
/// basis lies across it entirely.
pub proof fn law_split_of_aligned(basis: Vector, v: Vector, k: int)
    ensures
        v == basis.scaled(k) ==> v.projected(basis) == v.scaled(basis.norm_sq())
            && v.rejected(basis).is_zero(),
        basis.dot(v) == 0 ==> v.projected(basis).is_zero() && v.rejected(basis) == v.scaled(
            basis.norm_sq(),
        ),
{
    let n = basis.norm_sq();
    let d = basis.dot(v);
    if v == basis.scaled(k) {
        lemma_dot_squared(basis, v);
        lemma_dot_of_scaled(basis, k, basis);
        assert(d == k * n);
        lemma_aligned_component(k, n, basis.x);
        lemma_aligned_component(k, n, basis.y);
        lemma_aligned_component(k, n, basis.z);
    }
    if d == 0 {
        assert(0 * basis.x == 0 && 0 * basis.y == 0 && 0 * basis.z == 0);
    }
}

/// The exact perpendicular part has no component along the basis.
pub proof fn law_rejected_is_perpendicular(v: Vector, basis: Vector)
    ensures
        v.rejected(basis).dot(basis) == 0,
{
    let n = basis.norm_sq();
    let d = basis.dot(v);
    let p = v.rejected(basis);
    assert((n * v.x - d * basis.x) * basis.x == n * (basis.x * v.x) - d * (basis.x * basis.x))
        by (nonlinear_arith);
    assert((n * v.y - d * basis.y) * basis.y == n * (basis.y * v.y) - d * (basis.y * basis.y))
        by (nonlinear_arith);
    assert((n * v.z - d * basis.z) * basis.z == n * (basis.z * v.z) - d * (basis.z * basis.z))
        by (nonlinear_arith);
    assert(n * d == n * (basis.x * v.x) + n * (basis.y * v.y) + n * (basis.z * v.z))
        by (nonlinear_arith)
        requires
            d == basis.x * v.x + basis.y * v.y + basis.z * v.z,
    ;
    assert(d * n == d * (basis.x * basis.x) + d * (basis.y * basis.y) + d * (basis.z
        * basis.z)) by (nonlinear_arith)
        requires
            n == basis.x * basis.x + basis.y * basis.y + basis.z * basis.z,
    ;
    assert(n * d == d * n) by (nonlinear_arith);
}

/// The unit direction of a vector that is not zero: no component exceeds
/// `UNIT` in absolute value, and each has the sign of the component it came
/// from.
pub proof fn law_unit_components(w: Vector)
    requires
        !w.is_zero(),
    ensures
        w.unit().within(UNIT as int),
        w.x >= 0 ==> w.unit().x >= 0,
        w.x <= 0 ==> w.unit().x <= 0,
        w.y >= 0 ==> w.unit().y >= 0,
        w.y <= 0 ==> w.unit().y <= 0,
        w.z >= 0 ==> w.unit().z >= 0,
        w.z <= 0 ==> w.unit().z <= 0,
        is_floor_sqrt(w.norm_sq() * (UNIT * UNIT), floor_sqrt(w.norm_sq() * (UNIT * UNIT))),
        floor_sqrt(w.norm_sq() * (UNIT * UNIT)) >= UNIT,
{
    let n = w.norm_sq();
    lemma_norm_sq_positive(w);
    assert(n * (UNIT * UNIT) >= 0) by (nonlinear_arith)
        requires
            n >= 0,
    ;
    lemma_floor_sqrt_exists(n * (UNIT * UNIT));
    let r = floor_sqrt(n * (UNIT * UNIT));
    lemma_unit_component(w.x, n, r);
    lemma_unit_component(w.y, n, r);
    lemma_unit_component(w.z, n, r);
}

/// The unit direction of a vector that is not zero is at least as long as
/// `UNIT`, and becomes shorter than `UNIT + 1` when each component is moved
/// one step toward zero: rounding adds less than one step a component. As it
/// stands it is shorter than `UNIT + 3`.
pub proof fn law_unit_length(w: Vector)
    requires
        !w.is_zero(),
    ensures
        w.unit().norm_sq() >= UNIT * UNIT,
        w.unit().shrunk().norm_sq() < (UNIT + 1) * (UNIT + 1),
        w.unit().norm_sq() < (UNIT + 3) * (UNIT + 3),
{
    let n = w.norm_sq();
    let u = UNIT as int;
    let uu = UNIT * UNIT;
    let k = uu * uu;
    law_unit_components(w);
    lemma_norm_sq_positive(w);
    let r = floor_sqrt(n * uu);
    let q = w.unit();
    lemma_unit_component_squares(w.x, r);
    lemma_unit_component_squares(w.y, r);
    lemma_unit_component_squares(w.z, r);
    let rr = r * r;
    let s = q.norm_sq();
    let (gx, gy, gz) = (shrunk(q.x) * shrunk(q.x), shrunk(q.y) * shrunk(q.y), shrunk(q.z)
        * shrunk(q.z));
    let g = gx + gy + gz;
    lemma_times_sum(rr, q.x * q.x, q.y * q.y, q.z * q.z);
    lemma_times_sum(rr, gx, gy, gz);
    lemma_times_sum(k, w.x * w.x, w.y * w.y, w.z * w.z);
    assert(rr * s >= k * n);
    assert(rr * g <= k * n);
    assert(k * n == uu * (n * uu)) by (nonlinear_arith)
        requires
            k == uu * uu,
    ;
    // At least as long as UNIT.
    assert(uu * rr <= uu * (n * uu)) by (nonlinear_arith)
        requires
            rr <= n * uu,
            uu > 0,
    ;
    assert(rr > 0) by (nonlinear_arith)
        requires
            rr == r * r,
            r > 0,
    ;
    assert(s >= uu) by (nonlinear_arith)
        requires
            rr * s >= uu * rr,
            rr > 0,
    ;
    // Shorter than UNIT + 1 once every component is moved one step in.
    assert(uu * (n * uu) < uu * ((r + 1) * (r + 1))) by (nonlinear_arith)
        requires
            n * uu < (r + 1) * (r + 1),
            uu > 0,
    ;
    assert(uu * ((r + 1) * (r + 1)) <= rr * ((u + 1) * (u + 1))) by (nonlinear_arith)
        requires
            uu == u * u,
            rr == r * r,
            r >= u,
            u > 0,
    ;
    assert(g < (u + 1) * (u + 1)) by (nonlinear_arith)
        requires
            rr * g < rr * ((u + 1) * (u + 1)),
            rr > 0,
    ;
    // Shorter than UNIT + 3 as it stands.
    lemma_grown(q);
    assert(s < (u + 3) * (u + 3)) by (nonlinear_arith)
        requires
            s <= g + 2 * q.shrunk().norm_one() + 3,
            q.shrunk().norm_one() * q.shrunk().norm_one() <= 3 * g,
            q.shrunk().norm_one() >= 0,
            g < (u + 1) * (u + 1),
            u == 4096,
    ;
}

/// A vector is longer than the same vector moved one step toward zero by no
/// more than the steps allow.
pub proof fn lemma_grown(a: Vector)
    ensures
        a.norm_sq() <= a.shrunk().norm_sq() + 2 * a.shrunk().norm_one() + 3,
        a.shrunk().norm_one() * a.shrunk().norm_one() <= 3 * a.shrunk().norm_sq(),
        a.shrunk().norm_one() >= 0,
{
    lemma_norm_one_squared(a.shrunk());
    assert(a.x * a.x <= shrunk(a.x) * shrunk(a.x) + 2 * abs(shrunk(a.x)) + 1)
        by (nonlinear_arith)
        requires
            (a.x > 0 && shrunk(a.x) == a.x - 1) || (a.x < 0 && shrunk(a.x) == a.x + 1) || (a.x
                == 0 && shrunk(a.x) == 0),
    ;
    assert(a.y * a.y <= shrunk(a.y) * shrunk(a.y) + 2 * abs(shrunk(a.y)) + 1)
        by (nonlinear_arith)
        requires
            (a.y > 0 && shrunk(a.y) == a.y - 1) || (a.y < 0 && shrunk(a.y) == a.y + 1) || (a.y
                == 0 && shrunk(a.y) == 0),
    ;
    assert(a.z * a.z <= shrunk(a.z) * shrunk(a.z) + 2 * abs(shrunk(a.z)) + 1)
        by (nonlinear_arith)
        requires
            (a.z > 0 && shrunk(a.z) == a.z - 1) || (a.z < 0 && shrunk(a.z) == a.z + 1) || (a.z
                == 0 && shrunk(a.z) == 0),
    ;
}

/// The unit direction of a vector that is not zero points the way the
/// vector does: each component of their cross product is smaller, in
/// absolute value, than the sum of the absolute values of the two components
/// of the vector that it is made of, which is all that rounding can leave.
pub proof fn law_unit_is_parallel(w: Vector)
    requires
        !w.is_zero(),
    ensures
        abs(w.unit().x * w.y - w.unit().y * w.x) <= abs(w.x) + abs(w.y),
        abs(w.unit().y * w.z - w.unit().z * w.y) <= abs(w.y) + abs(w.z),
        abs(w.unit().z * w.x - w.unit().x * w.z) <= abs(w.z) + abs(w.x),
        w.x != 0 || w.y != 0 ==> abs(w.unit().x * w.y - w.unit().y * w.x) < abs(w.x) + abs(w.y),
        w.y != 0 || w.z != 0 ==> abs(w.unit().y * w.z - w.unit().z * w.y) < abs(w.y) + abs(w.z),
        w.z != 0 || w.x != 0 ==> abs(w.unit().z * w.x - w.unit().x * w.z) < abs(w.z) + abs(w.x),
{
    law_unit_components(w);
    let r = floor_sqrt(w.norm_sq() * (UNIT * UNIT));
    lemma_unit_cross(w.x, w.y, r);
    lemma_unit_cross(w.y, w.z, r);
    lemma_unit_cross(w.z, w.x, r);
}

/// One component of the cross product of a unit direction with the vector
/// it came from: `a` and `b` are two components of the vector, `r` its
/// rounded length.
proof fn lemma_unit_cross(a: int, b: int, r: int)
    requires
        r >= UNIT,
    ensures
        ({
            let cross = quot_up((UNIT * UNIT) * a, r) * b - quot_up((UNIT * UNIT) * b, r) * a;
            &&& abs(cross) <= abs(a) + abs(b)
            &&& a != 0 || b != 0 ==> abs(cross) < abs(a) + abs(b)
        }),
{
    let uu = UNIT * UNIT;
    let (ta, tb) = (uu * a, uu * b);
    let (qa, qb) = (quot_up(ta, r), quot_up(tb, r));
    let (ea, eb) = (r * qa - ta, r * qb - tb);
    let cross = qa * b - qb * a;
    lemma_quot_up(ta, r);
    lemma_quot_up(tb, r);
    // r * cross == ea * b - eb * a
    lemma_regroup(r, qa, b);
    lemma_regroup(r, qb, a);
    lemma_times_pair(r, qa * b, qb * a);
    lemma_times_pair(b, ta, ea);
    lemma_times_pair(a, tb, eb);
    lemma_regroup(uu, a, b);
    lemma_regroup(uu, b, a);
    lemma_times_pair(a, b, 0);
    lemma_times_pair(uu, a * b, b * a);
    assert(r * cross == ea * b - eb * a);
    lemma_product_bound(eb, a, r - 1, abs(a));
    lemma_product_bound(ea, b, r - 1, abs(b));
    let m = abs(a) + abs(b);
    lemma_times_pair(r - 1, abs(a), abs(b));
    assert(abs(cross) <= m && (m > 0 ==> abs(cross) < m)) by (nonlinear_arith)
        requires
            -((r - 1) * m) <= r * cross <= (r - 1) * m,
            r > 0,
            m >= 0,
    ;
}

/// A bounded vector times a bounded factor is bounded by the product of the
/// bounds.
pub proof fn lemma_scaled_within(v: Vector, k: int, limit: int, factor: int)
    requires
        v.within(limit),
        -factor <= k <= factor,
    ensures
        v.scaled(k).within(factor * limit),
{
    lemma_product_bound(k, v.x, factor, limit);
    lemma_product_bound(k, v.y, factor, limit);
    lemma_product_bound(k, v.z, factor, limit);
}

/// A dot product of bounded vectors is bounded by three times the product of
/// the bounds.
pub proof fn lemma_dot_bound(a: Vector, b: Vector, la: int, lb: int)
    requires
        a.within(la),
        b.within(lb),
    ensures
        -3 * (la * lb) <= a.dot(b) <= 3 * (la * lb),
{
    lemma_product_bound(a.x, b.x, la, lb);
    lemma_product_bound(a.y, b.y, la, lb);
    lemma_product_bound(a.z, b.z, la, lb);
}

/// A squared length is not negative, and is zero only for the zero vector.
pub proof fn lemma_norm_sq_positive(a: Vector)
    ensures
        a.norm_sq() >= 0,
        a.norm_sq() == 0 <==> a.is_zero(),
        a.norm_sq() >= a.x * a.x,
        a.norm_sq() >= a.y * a.y,
        a.norm_sq() >= a.z * a.z,
{
    assert(a.x * a.x >= 0 && (a.x * a.x == 0 <==> a.x == 0)) by (nonlinear_arith);
    assert(a.y * a.y >= 0 && (a.y * a.y == 0 <==> a.y == 0)) by (nonlinear_arith);
    assert(a.z * a.z >= 0 && (a.z * a.z == 0 <==> a.z == 0)) by (nonlinear_arith);
}

/// The square of a dot product is at most the product of the squared
/// lengths, and the dot product does not depend on the order of its factors.
pub proof fn lemma_dot_squared(a: Vector, b: Vector)
    ensures
        a.dot(b) * a.dot(b) <= a.norm_sq() * b.norm_sq(),
        a.dot(b) == b.dot(a),
{
    let (pxx, pxy, pxz) = (a.x * b.x, a.x * b.y, a.x * b.z);
    let (pyx, pyy, pyz) = (a.y * b.x, a.y * b.y, a.y * b.z);
    let (pzx, pzy, pzz) = (a.z * b.x, a.z * b.y, a.z * b.z);
    lemma_square_of_sum(pxx, pyy, pzz);
    lemma_product_of_sums(a.x * a.x, a.y * a.y, a.z * a.z, b.x * b.x, b.y * b.y, b.z * b.z);
    lemma_swap_pairs(a.x, a.x, b.x, b.x);
    lemma_swap_pairs(a.x, a.x, b.y, b.y);
    lemma_swap_pairs(a.x, a.x, b.z, b.z);
    lemma_swap_pairs(a.y, a.y, b.x, b.x);
    lemma_swap_pairs(a.y, a.y, b.y, b.y);
    lemma_swap_pairs(a.y, a.y, b.z, b.z);
    lemma_swap_pairs(a.z, a.z, b.x, b.x);
    lemma_swap_pairs(a.z, a.z, b.y, b.y);
    lemma_swap_pairs(a.z, a.z, b.z, b.z);
    assert(b.x * a.x == a.x * b.x && b.y * a.x == a.x * b.y && b.z * a.x == a.x * b.z)
        by (nonlinear_arith);
    assert(b.x * a.y == a.y * b.x && b.y * a.y == a.y * b.y && b.z * a.y == a.y * b.z)
        by (nonlinear_arith);
    assert(b.x * a.z == a.z * b.x && b.y * a.z == a.z * b.y && b.z * a.z == a.z * b.z)
        by (nonlinear_arith);
    assert(a.norm_sq() * b.norm_sq() == pxx * pxx + pxy * pxy + pxz * pxz + pyx * pyx + pyy
        * pyy + pyz * pyz + pzx * pzx + pzy * pzy + pzz * pzz);
    lemma_swap_pairs(a.x, b.x, a.y, b.y);
    lemma_swap_pairs(a.x, b.x, a.z, b.z);
    lemma_swap_pairs(a.y, b.y, a.z, b.z);
    lemma_twice_product(pxy, pyx);
    lemma_twice_product(pxz, pzx);
    lemma_twice_product(pyz, pzy);
}

/// The square of the sum of the absolute values of the components is at most
/// three times the squared length.
pub proof fn lemma_norm_one_squared(a: Vector)
    ensures
        a.norm_one() * a.norm_one() <= 3 * a.norm_sq(),
        a.norm_one() >= 0,
{
    let (x, y, z) = (abs(a.x), abs(a.y), abs(a.z));
    lemma_square_of_sum(x, y, z);
    lemma_twice_product(x, y);
    lemma_twice_product(x, z);
    lemma_twice_product(y, z);
    assert(x * x == a.x * a.x) by (nonlinear_arith)
        requires
            x == a.x || x == -a.x,
    ;
    assert(y * y == a.y * a.y) by (nonlinear_arith)
        requires
            y == a.y || y == -a.y,
    ;
    assert(z * z == a.z * a.z) by (nonlinear_arith)
        requires
            z == a.z || z == -a.z,
    ;
}

/// A scaled vector has the scaled dot product, and the squared length scaled
/// twice.
pub proof fn lemma_dot_of_scaled(a: Vector, k: int, b: Vector)
    ensures
        a.scaled(k).dot(b) == k * a.dot(b),
        a.scaled(k).norm_sq() == k * k * a.norm_sq(),
{
    lemma_regroup(k, a.x, b.x);
    lemma_regroup(k, a.y, b.y);
    lemma_regroup(k, a.z, b.z);
    lemma_times_sum(k, a.x * b.x, a.y * b.y, a.z * b.z);
    lemma_square_of_scaled(k, a.x);
    lemma_square_of_scaled(k, a.y);
    lemma_square_of_scaled(k, a.z);
    lemma_times_sum(k * k, a.x * a.x, a.y * a.y, a.z * a.z);
}

/// The squared length of a sum.
pub proof fn lemma_norm_sq_of_sum(a: Vector, b: Vector)
    ensures
        a.plus(b).norm_sq() == a.norm_sq() + 2 * a.dot(b) + b.norm_sq(),
{
    lemma_square_of_pair(a.x, b.x);
    lemma_square_of_pair(a.y, b.y);
    lemma_square_of_pair(a.z, b.z);
}

/// The square of a sum of two terms, written out.
proof fn lemma_square_of_pair(p: int, q: int)
    ensures
        (p + q) * (p + q) == p * p + 2 * (p * q) + q * q,
{
    assert((p + q) * (p + q) == p * p + 2 * (p * q) + q * q) by (nonlinear_arith);
}

/// One component of a projection and of a perpendicular part of `s` times
/// `v` plus `w`.
proof fn lemma_linear_component(s: int, dv: int, dw: int, n: int, b: int, v: int, w: int)
    ensures
        (s * dv + dw) * b == s * (dv * b) + dw * b,
        n * (s * v + w) - (s * dv + dw) * b == s * (n * v - dv * b) + (n * w - dw * b),
{
    lemma_times_pair(b, s * dv, dw);
    lemma_regroup(s, dv, b);
    lemma_times_pair(n, s * v, w);
    lemma_regroup(n, s, v);
    lemma_regroup(s, n, v);
    lemma_times_pair(n, s, 0);
    lemma_times_pair(s, n * v, dv * b);
    assert(n * (s * v) == s * (n * v)) by (nonlinear_arith);
}

/// One component of the split of a multiple of the basis.
proof fn lemma_aligned_component(k: int, n: int, b: int)
    ensures
        (k * n) * b == n * (k * b),
{
    assert((k * n) * b == n * (k * b)) by (nonlinear_arith);
}

/// The exact perpendicular part of a sum is the sum of the exact
/// perpendicular parts.
pub proof fn lemma_rejected_is_additive(a: Vector, h: Vector, basis: Vector)
    ensures
        a.plus(h).rejected(basis) == a.rejected(basis).plus(h.rejected(basis)),
{
    let n = basis.norm_sq();
    let da = basis.dot(a);
    let dh = basis.dot(h);
    let d = basis.dot(a.plus(h));
    lemma_times_pair(basis.x, a.x, h.x);
    lemma_times_pair(basis.y, a.y, h.y);
    lemma_times_pair(basis.z, a.z, h.z);
    assert(d == da + dh);
    assert(n * (a.x + h.x) - (da + dh) * basis.x == (n * a.x - da * basis.x) + (n * h.x - dh
        * basis.x)) by (nonlinear_arith);
    assert(n * (a.y + h.y) - (da + dh) * basis.y == (n * a.y - da * basis.y) + (n * h.y - dh
        * basis.y)) by (nonlinear_arith);
    assert(n * (a.z + h.z) - (da + dh) * basis.z == (n * a.z - da * basis.z) + (n * h.z - dh
        * basis.z)) by (nonlinear_arith);
}

/// Against a vector across the basis, the exact perpendicular part of `h`
/// has the dot product of `h` itself, times the squared length of the basis.
pub proof fn lemma_rejected_dot_across(h: Vector, basis: Vector, p: Vector)
    requires
        p.dot(basis) == 0,
    ensures
        h.rejected(basis).dot(p) == basis.norm_sq() * h.dot(p),
{
    let n = basis.norm_sq();
    let d = basis.dot(h);
    let e = h.dot(p);
    assert((n * h.x - d * basis.x) * p.x == n * (h.x * p.x) - d * (p.x * basis.x))
        by (nonlinear_arith);
    assert((n * h.y - d * basis.y) * p.y == n * (h.y * p.y) - d * (p.y * basis.y))
        by (nonlinear_arith);
    assert((n * h.z - d * basis.z) * p.z == n * (h.z * p.z) - d * (p.z * basis.z))
        by (nonlinear_arith);
    assert(n * e == n * (h.x * p.x) + n * (h.y * p.y) + n * (h.z * p.z)) by (nonlinear_arith)
        requires
            e == h.x * p.x + h.y * p.y + h.z * p.z,
    ;
    assert(d * (p.x * basis.x) + d * (p.y * basis.y) + d * (p.z * basis.z) == d * 0)
        by (nonlinear_arith)
        requires
            p.x * basis.x + p.y * basis.y + p.z * basis.z == 0,
    ;
}

/// One component of a unit direction: it is at most `UNIT` in absolute value
/// and has the sign of the component it came from.
proof fn lemma_unit_component(c: int, n: int, r: int)
    requires
        n >= 1,
        c * c <= n,
        is_floor_sqrt(n * (UNIT * UNIT), r),
    ensures
        r >= UNIT,
        -UNIT <= quot_up((UNIT * UNIT) * c, r) <= UNIT,
        c >= 0 ==> quot_up((UNIT * UNIT) * c, r) >= 0,
        c <= 0 ==> quot_up((UNIT * UNIT) * c, r) <= 0,
{
    let u = UNIT as int;
    let a = abs(c) * u;
    assert(a * a == (c * c) * (u * u)) by (nonlinear_arith)
        requires
            a == c * u || a == (-c) * u,
    ;
    assert((c * c) * (u * u) <= n * (u * u)) by (nonlinear_arith)
        requires
            c * c <= n,
            u * u >= 0,
    ;
    lemma_floor_sqrt_lower(n * (u * u), r, a);
    assert(u * u <= n * (u * u)) by (nonlinear_arith)
        requires
            n >= 1,
            u * u >= 0,
    ;
    lemma_floor_sqrt_lower(n * (u * u), r, u);
    let t = (u * u) * c;
    assert(abs(t) == a * u) by (nonlinear_arith)
        requires
            t == (u * u) * c,
            (c >= 0 && a == c * u) || (c < 0 && a == (-c) * u),
            u > 0,
    ;
    assert(a * u <= r * u) by (nonlinear_arith)
        requires
            a <= r,
            u > 0,
    ;
    lemma_quot_up(t, r);
    let q = quot_up(t, r);
    assert(abs(q) <= u) by (nonlinear_arith)
        requires
            abs(r * q) < abs(t) + r,
            abs(t) <= r * u,
            r > 0,
            u > 0,
    ;
    assert(c >= 0 ==> t >= 0) by (nonlinear_arith)
        requires
            t == (u * u) * c,
            u > 0,
    ;
    assert(c <= 0 ==> t <= 0) by (nonlinear_arith)
        requires
            t == (u * u) * c,
            u > 0,
    ;
}

/// One component of a unit direction, held against the component it came
/// from: `r` is the rounded length.
proof fn lemma_unit_component_squares(c: int, r: int)
    requires
        r >= UNIT,
    ensures
        ({
            let q = quot_up((UNIT * UNIT) * c, r);
            let k = (UNIT * UNIT) * (UNIT * UNIT);
            &&& (r * r) * (q * q) >= k * (c * c)
            &&& (r * r) * (shrunk(q) * shrunk(q)) <= k * (c * c)
        }),
{
    let uu = UNIT * UNIT;
    let t = uu * c;
    let q = quot_up(t, r);
    lemma_quot_up(t, r);
    lemma_square_monotone(t, r * q);
    lemma_square_of_scaled(r, q);
    lemma_square_of_scaled(uu, c);
    let m = r * shrunk(q);
    assert(abs(m) <= abs(t)) by (nonlinear_arith)
        requires
            m == r * shrunk(q),
            abs(r * q) < abs(t) + r,
            shrunk(q) == q - 1 || shrunk(q) == q + 1 || (shrunk(q) == 0 && q == 0),
            q > 0 ==> shrunk(q) == q - 1,
            q < 0 ==> shrunk(q) == q + 1,
            r > 0,
    ;
    lemma_square_monotone(m, t);
    lemma_square_of_scaled(r, shrunk(q));
}

} // verus!
