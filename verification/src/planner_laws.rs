//! What holds of the planned target: the contact point lies no nearer to the
//! ball's centre than the offset, and a target that is taken around the ball
//! ends up clear of the line through the car and the ball by the full push.

use vstd::prelude::*;
use crate::arith::{
    lemma_product_bound, lemma_square_monotone, lemma_square_of_scaled, lemma_times_pair,
    lemma_times_sum,
};
use crate::fixed::{abs, floor_sqrt, lemma_quot_up, quot_up, shrunk};
use crate::planner::{blocked, detoured, offset, sideways, too_close, OFFSET_LIMIT};
use crate::tuning::{Tuning, MULTIPLE_LIMIT, RADIUS_LIMIT};
use crate::vector::{Vector, UNIT};
use crate::vector_laws::{
    law_rejected_is_perpendicular, law_unit_components, law_unit_length, lemma_dot_squared,
    lemma_norm_sq_positive, lemma_rejected_dot_across, lemma_rejected_is_additive,
    lemma_scaled_within,
};

verus! {

/// A target behind the ball that lies too close to the line through the car
/// and the ball, on either side of it, is pushed, and then lies at least the
/// push off that line: it is not too close for a clearance of the push. A
/// target exactly on the line has no side and is left where it is.
pub proof fn law_detour_clears_the_line(car: Vector, ball: Vector, target: Vector, tuning: Tuning)
    requires
        tuning.wf(),
        blocked(car, ball, target),
        too_close(car, ball, target, tuning.ball_radius as int, tuning.clearance as int),
        !sideways(car, ball, target).is_zero(),
    ensures
        detoured(car, ball, target, tuning) == target.plus(
            offset(sideways(car, ball, target).unit(), tuning.ball_radius as int, tuning.push as int),
        ),
        !too_close(
            car,
            ball,
            detoured(car, ball, target, tuning),
            tuning.ball_radius as int,
            tuning.push as int,
        ),
{
    let b = ball.minus(car);
    if b.is_zero() {
        let a = target.minus(ball);
        assert(a.rejected(b).is_zero()) by (nonlinear_arith)
            requires
                b.x == 0 && b.y == 0 && b.z == 0,
                a.rejected(b).x == (b.x * b.x + b.y * b.y + b.z * b.z) * a.x - (b.x * a.x + b.y
                    * a.y + b.z * a.z) * b.x,
                a.rejected(b).y == (b.x * b.x + b.y * b.y + b.z * b.z) * a.y - (b.x * a.x + b.y
                    * a.y + b.z * a.z) * b.y,
                a.rejected(b).z == (b.x * b.x + b.y * b.y + b.z * b.z) * a.z - (b.x * a.x + b.y
                    * a.y + b.z * a.z) * b.z,
        ;
    }
    law_push_clears_the_line(car, ball, target, tuning.ball_radius as int, tuning.push as int);
}

/// A target with a side to be pushed to, pushed by `multiple` thousandths of
/// `radius`, lies at least that far off the line through the car and the
/// ball, wherever it lay before.
pub proof fn law_push_clears_the_line(
    car: Vector,
    ball: Vector,
    target: Vector,
    radius: int,
    multiple: int,
)
    requires
        radius >= 0,
        multiple >= 0,
        !sideways(car, ball, target).is_zero(),
    ensures
        !too_close(
            car,
            ball,
            target.plus(offset(sideways(car, ball, target).unit(), radius, multiple)),
            radius,
            multiple,
        ),
{
    let b = ball.minus(car);
    let n = b.norm_sq();
    let a = target.minus(ball);
    let side = a.rejected(b);
    let s = side.norm_sq();
    let k = radius * multiple;
    let h = offset(side.unit(), radius, multiple);
    let pushed = target.plus(h);
    lemma_norm_sq_positive(side);
    lemma_norm_sq_positive(b);
    lemma_offset_along(side, radius, multiple);
    let e = h.dot(side);
    let f = 1000 * e;
    // The sideways part of the pushed target is the sideways part of the
    // target plus that of the push.
    assert(pushed.minus(ball) == a.plus(h));
    lemma_rejected_is_additive(a, h, b);
    let after = sideways(car, ball, pushed);
    assert(after == side.plus(h.rejected(b)));
    law_rejected_is_perpendicular(a, b);
    lemma_rejected_dot_across(h, b, side);
    let along = after.dot(side);
    lemma_times_pair(side.x, side.x, h.rejected(b).x);
    lemma_times_pair(side.y, side.y, h.rejected(b).y);
    lemma_times_pair(side.z, side.z, h.rejected(b).z);
    assert(along == s + n * e);
    // It is at least as long as its component along the sideways part of
    // the target.
    lemma_dot_squared(after, side);
    let w = after.norm_sq();
    assert(along >= n * e && n * e >= 0) by (nonlinear_arith)
        requires
            along == s + n * e,
            s >= 0,
            n >= 0,
            e >= 0,
    ;
    assert(along * along >= (n * e) * (n * e)) by (nonlinear_arith)
        requires
            along >= n * e,
            n * e >= 0,
    ;
    let span = n * k;
    let ne = (n * e) * (n * e);
    assert(1_000_000 * (w * s) >= 1_000_000 * ne);
    assert(1_000_000 * ne == (n * n) * (f * f)) by (nonlinear_arith)
        requires
            ne == (n * e) * (n * e),
            f == 1000 * e,
    ;
    assert((n * n) * (f * f) >= (n * n) * ((k * k) * s)) by (nonlinear_arith)
        requires
            f * f >= (k * k) * s,
    ;
    assert((n * n) * ((k * k) * s) == (span * span) * s) by (nonlinear_arith)
        requires
            span == n * k,
    ;
    assert(1_000_000 * (w * s) == (1_000_000 * w) * s) by (nonlinear_arith);
    assert(1_000_000 * w >= span * span) by (nonlinear_arith)
        requires
            (1_000_000 * w) * s >= (span * span) * s,
            s > 0,
    ;
}

/// The offset along the direction of a vector that is not zero points the
/// way the vector does and is as long as asked for, `multiple` thousandths
/// of `radius`, as nearly as rounding allows: never shorter, and with each
/// component moved one step toward zero no longer than that and three parts
/// in `UNIT` of it. No component exceeds the length asked for, rounded up.
pub proof fn law_offset_length(w: Vector, radius: int, multiple: int)
    requires
        radius >= 0,
        multiple >= 0,
        !w.is_zero(),
    ensures
        offset(w.unit(), radius, multiple).dot(w) >= 0,
        1_000_000 * offset(w.unit(), radius, multiple).norm_sq() >= (radius * multiple) * (radius
            * multiple),
        (1000 * UNIT) * (1000 * UNIT) * offset(w.unit(), radius, multiple).shrunk().norm_sq() <= (
        radius * multiple * (UNIT + 3)) * (radius * multiple * (UNIT + 3)),
        offset(w.unit(), radius, multiple).within(quot_up(radius * multiple, 1000)),
{
    let u = w.unit();
    let k = radius * multiple;
    let h = offset(u, radius, multiple);
    let s = w.norm_sq();
    lemma_norm_sq_positive(w);
    lemma_offset_along(w, radius, multiple);
    lemma_dot_squared(h, w);
    let e = h.dot(w);
    let f = 1000 * e;
    let g = h.norm_sq();
    assert(f * f == 1_000_000 * (e * e)) by (nonlinear_arith)
        requires
            f == 1000 * e,
    ;
    assert(1_000_000 * (g * s) == (1_000_000 * g) * s) by (nonlinear_arith);
    assert(1_000_000 * g >= k * k) by (nonlinear_arith)
        requires
            (1_000_000 * g) * s >= (k * k) * s,
            s > 0,
    ;
    law_unit_components(w);
    lemma_offset_component(u.x, k);
    lemma_offset_component(u.y, k);
    lemma_offset_component(u.z, k);
    // No longer, once every component is moved one step in.
    let d = 1000 * UNIT;
    let sh = h.shrunk();
    lemma_square_monotone(d * sh.x, k * u.x);
    lemma_square_monotone(d * sh.y, k * u.y);
    lemma_square_monotone(d * sh.z, k * u.z);
    lemma_square_of_scaled(d, sh.x);
    lemma_square_of_scaled(d, sh.y);
    lemma_square_of_scaled(d, sh.z);
    lemma_square_of_scaled(k, u.x);
    lemma_square_of_scaled(k, u.y);
    lemma_square_of_scaled(k, u.z);
    lemma_times_sum(d * d, sh.x * sh.x, sh.y * sh.y, sh.z * sh.z);
    lemma_times_sum(k * k, u.x * u.x, u.y * u.y, u.z * u.z);
    law_unit_length(w);
    let most = (UNIT + 3) * (UNIT + 3);
    assert((k * k) * u.norm_sq() <= (k * k) * most) by (nonlinear_arith)
        requires
            u.norm_sq() <= most,
    ;
    lemma_square_of_scaled(k, UNIT + 3);
}

/// One component of an offset is no larger than the length asked for,
/// rounded up: `q` is the component of the unit direction, `k` the radius
/// times the multiple.
proof fn lemma_offset_component(q: int, k: int)
    requires
        -UNIT <= q <= UNIT,
        k >= 0,
    ensures
        abs(quot_up(k * q, 1000 * UNIT)) <= quot_up(k, 1000),
        abs((1000 * UNIT) * shrunk(quot_up(k * q, 1000 * UNIT))) <= abs(k * q),
{
    let d = 1000 * UNIT;
    let g = quot_up(k * q, d);
    let c = quot_up(k, 1000);
    lemma_quot_up(k * q, d);
    lemma_quot_up(k, 1000);
    lemma_product_bound(k, q, k, UNIT as int);
    assert(abs(g) <= c) by (nonlinear_arith)
        requires
            abs(d * g) < abs(k * q) + d,
            abs(k * q) <= k * UNIT,
            1000 * c >= k,
            d == 1000 * UNIT,
            c >= 0,
    ;
    assert(abs(d * shrunk(g)) <= abs(k * q)) by (nonlinear_arith)
        requires
            abs(d * g) < abs(k * q) + d,
            (g > 0 && shrunk(g) == g - 1) || (g < 0 && shrunk(g) == g + 1) || (g == 0 && shrunk(g)
                == 0),
            d > 0,
    ;
}

/// The offset along the direction of `w` points along `w`, and its
/// component along `w` is at least the length asked for.
proof fn lemma_offset_along(w: Vector, radius: int, multiple: int)
    requires
        radius >= 0,
        multiple >= 0,
        !w.is_zero(),
    ensures
        offset(w.unit(), radius, multiple).dot(w) >= 0,
        ({
            let f = 1000 * offset(w.unit(), radius, multiple).dot(w);
            f * f >= ((radius * multiple) * (radius * multiple)) * w.norm_sq()
        }),
{
    let s = w.norm_sq();
    let u = UNIT as int;
    let uu = UNIT * UNIT;
    let d = 1000 * UNIT;
    let k = radius * multiple;
    let h = offset(w.unit(), radius, multiple);
    assert(k >= 0) by (nonlinear_arith)
        requires
            k == radius * multiple,
            radius >= 0,
            multiple >= 0,
    ;
    lemma_norm_sq_positive(w);
    law_unit_components(w);
    let r = floor_sqrt(s * uu);
    lemma_push_component(w.x, r, k);
    lemma_push_component(w.y, r, k);
    lemma_push_component(w.z, r, k);
    let e = h.dot(w);
    lemma_times_sum(d * r, h.x * w.x, h.y * w.y, h.z * w.z);
    lemma_times_sum(k * uu, w.x * w.x, w.y * w.y, w.z * w.z);
    assert(d * r * e >= k * uu * s);
    assert(e >= 0);
    let f = 1000 * e;
    // Divide by UNIT, square, and put the squared length for the square of
    // its rounded root.
    assert(f * r >= k * u * s) by (nonlinear_arith)
        requires
            d * r * e >= k * uu * s,
            d == 1000 * u,
            uu == u * u,
            f == 1000 * e,
            u > 0,
    ;
    assert(k * u * s >= 0) by (nonlinear_arith)
        requires
            k >= 0,
            u > 0,
            s >= 0,
    ;
    let lhs = f * r;
    let rhs = k * u * s;
    assert(lhs * lhs >= rhs * rhs) by (nonlinear_arith)
        requires
            lhs >= rhs,
            rhs >= 0,
    ;
    assert(lhs * lhs == (f * f) * (r * r)) by (nonlinear_arith)
        requires
            lhs == f * r,
    ;
    assert(rhs * rhs == ((k * k) * s) * (uu * s)) by (nonlinear_arith)
        requires
            rhs == k * u * s,
            uu == u * u,
    ;
    assert((f * f) * (r * r) <= (f * f) * (uu * s)) by (nonlinear_arith)
        requires
            r * r <= s * uu,
            f * f >= 0,
    ;
    assert(f * f >= 0) by (nonlinear_arith);
    assert(uu * s > 0) by (nonlinear_arith)
        requires
            uu > 0,
            s > 0,
    ;
    assert(f * f >= (k * k) * s) by (nonlinear_arith)
        requires
            (f * f) * (uu * s) >= ((k * k) * s) * (uu * s),
            uu * s > 0,
    ;
}

/// One component of a push, held against the component of the sideways part
/// that it came from: `p` is that component, `r` the rounded length of the
/// sideways part, `k` the radius times the multiple.
proof fn lemma_push_component(p: int, r: int, k: int)
    requires
        r >= UNIT,
        k >= 0,
    ensures
        ({
            let q = quot_up((UNIT * UNIT) * p, r);
            let g = quot_up(k * q, 1000 * UNIT);
            &&& g * p >= 0
            &&& (1000 * UNIT) * r * (g * p) >= k * (UNIT * UNIT) * (p * p)
        }),
{
    let uu = UNIT * UNIT;
    let d = 1000 * UNIT;
    let t = uu * p;
    let q = quot_up(t, r);
    let g = quot_up(k * q, d);
    lemma_quot_up(t, r);
    lemma_quot_up(k * q, d);
    let (ap, aq, ag) = (abs(p), abs(q), abs(g));
    assert(abs(t) == uu * ap) by (nonlinear_arith)
        requires
            t == uu * p,
            uu > 0,
            ap == abs(p),
    ;
    assert(p >= 0 ==> t >= 0) by (nonlinear_arith)
        requires
            t == uu * p,
            uu > 0,
    ;
    assert(p <= 0 ==> t <= 0) by (nonlinear_arith)
        requires
            t == uu * p,
            uu > 0,
    ;
    assert(q >= 0 ==> k * q >= 0) by (nonlinear_arith)
        requires
            k >= 0,
    ;
    assert(q <= 0 ==> k * q <= 0) by (nonlinear_arith)
        requires
            k >= 0,
    ;
    assert(abs(k * q) == k * aq) by (nonlinear_arith)
        requires
            k >= 0,
            aq == abs(q),
    ;
    // Both quotients keep the sign of `p`.
    assert((p >= 0 && q >= 0 && g >= 0) || (p <= 0 && q <= 0 && g <= 0));
    assert(g * p == ag * ap) by (nonlinear_arith)
        requires
            (p >= 0 && g >= 0 && ap == p && ag == g) || (p <= 0 && g <= 0 && ap == -p && ag
                == -g),
    ;
    assert(ag * ap >= 0) by (nonlinear_arith)
        requires
            ag >= 0,
            ap >= 0,
    ;
    // Rounding away from zero covers each quotient.
    assert(r * aq >= uu * ap) by (nonlinear_arith)
        requires
            abs(r * q) >= abs(t),
            abs(t) == uu * ap,
            aq == abs(q),
            r > 0,
    ;
    assert(d * ag >= k * aq) by (nonlinear_arith)
        requires
            abs(d * g) >= abs(k * q),
            abs(k * q) == k * aq,
            ag == abs(g),
            d > 0,
    ;
    assert(d * r * ag >= k * (uu * ap)) by (nonlinear_arith)
        requires
            d * ag >= k * aq,
            r * aq >= uu * ap,
            r > 0,
            k >= 0,
    ;
    assert(d * r * (ag * ap) >= k * uu * (ap * ap)) by (nonlinear_arith)
        requires
            d * r * ag >= k * (uu * ap),
            ap >= 0,
    ;
    assert(ap * ap == p * p) by (nonlinear_arith)
        requires
            ap == p || ap == -p,
    ;
}

/// An offset along a unit direction stays within the offset limit.
pub proof fn lemma_offset_within(direction: Vector, radius: int, multiple: int)
    requires
        direction.within(UNIT as int),
        1 <= radius <= RADIUS_LIMIT,
        0 <= multiple <= MULTIPLE_LIMIT,
    ensures
        offset(direction, radius, multiple).within(OFFSET_LIMIT as int),
        direction.scaled(radius * multiple).within(RADIUS_LIMIT * MULTIPLE_LIMIT * UNIT),
{
    let k = radius * multiple;
    lemma_product_bound(radius, multiple, RADIUS_LIMIT as int, MULTIPLE_LIMIT as int);
    assert(0 <= k) by (nonlinear_arith)
        requires
            k == radius * multiple,
            radius >= 1,
            multiple >= 0,
    ;
    lemma_scaled_within(direction, k, UNIT as int, 32_768_000);
    lemma_offset_component(direction.x, k);
    lemma_offset_component(direction.y, k);
    lemma_offset_component(direction.z, k);
    lemma_quot_up(k, 1000);
}

} // verus!
