//! Where to drive: the point beside the ball from which driving on pushes the
//! ball the way the role wants it to go, moved sideways when the ball itself
//! stands in the way.

use vstd::prelude::*;
use crate::arith::lemma_product_bound;
use crate::planner_laws::{law_detour_clears_the_line, lemma_offset_within};
use crate::role::Role;
use crate::snapshot::{Ball, COORD_LIMIT};
use crate::tuning::{Tuning, MULTIPLE_LIMIT, RADIUS_LIMIT};
use crate::vector::{reject, view_of, Vec3, Vector, UNIT};
use crate::vector_laws::{lemma_dot_bound, lemma_norm_sq_positive, lemma_scaled_within};

verus! {

/// Largest coordinate, in absolute value, of the offset between the ball's
/// centre and a contact point, and of the push that takes a target around
/// the ball.
pub const OFFSET_LIMIT: i64 = 32_768;

/// Largest coordinate, in absolute value, of a contact point.
pub const CONTACT_LIMIT: i64 = 49_152;

/// Largest coordinate, in absolute value, of a target.
pub const TARGET_LIMIT: i64 = 81_920;

/// The direction in which offense wants the ball to go: toward the
/// opponent's goal, less the direction in which the ball already moves, so
/// that the hit turns the ball's motion toward the goal. A ball that stands
/// still, or that already moves exactly that way, leaves the direction to
/// the goal as it is. There is no direction when the ball is at the goal.
pub open spec fn offense_direction(ball: Vector, velocity: Vector, opponent_goal: Vector) -> Option<
    Vector,
> {
    let toward = opponent_goal.minus(ball);
    if toward.is_zero() {
        None
    } else if velocity.is_zero() {
        Some(toward.unit())
    } else {
        let adjusted = toward.unit().minus(velocity.unit());
        if adjusted.is_zero() {
            Some(toward.unit())
        } else {
            Some(adjusted.unit())
        }
    }
}

/// Where defense clears the ball to, before it is made a unit direction.
/// The blend is the unit way to the opponent's goal, weighted by the sum of
/// the two goal distances over the distance to that goal, less the unit way
/// to the agent's own goal, weighted by the same sum over the distance to
/// its own. Here it is multiplied by the product of the two squared
/// distances over their sum, which is positive and so does not turn it, and
/// which clears the roots and the quotients: what is left is the way to the
/// opponent's goal times the squared distance to the own goal, less the way
/// to the own goal times the squared distance to the opponent's.
pub open spec fn defense_blend(ball: Vector, own_goal: Vector, opponent_goal: Vector) -> Vector {
    let to_opponent = opponent_goal.minus(ball);
    let to_own = own_goal.minus(ball);
    to_opponent.scaled(to_own.norm_sq()).minus(to_own.scaled(to_opponent.norm_sq()))
}

/// The direction in which defense wants the ball to go: that of the blend.
/// There is none when the ball is at either goal, or when the blend is zero.
pub open spec fn defense_direction(ball: Vector, own_goal: Vector, opponent_goal: Vector) -> Option<
    Vector,
> {
    let blend = defense_blend(ball, own_goal, opponent_goal);
    if opponent_goal.minus(ball).is_zero() || own_goal.minus(ball).is_zero() || blend.is_zero() {
        None
    } else {
        Some(blend.unit())
    }
}

/// The direction in which the role wants the ball to go before the ball's
/// own motion is taken into account: toward the opponent's goal on offense,
/// the blend on defense.
pub open spec fn wanted(role: Role, ball: Vector, own_goal: Vector, opponent_goal: Vector) -> Option<
    Vector,
> {
    match role {
        Role::Offense => if opponent_goal.minus(ball).is_zero() {
            None
        } else {
            Some(opponent_goal.minus(ball).unit())
        },
        Role::Defense => defense_direction(ball, own_goal, opponent_goal),
    }
}

/// The direction in which the role wants the ball to go.
pub open spec fn approach(role: Role, ball: Ball, own_goal: Vector, opponent_goal: Vector) -> Option<
    Vector,
> {
    match role {
        Role::Offense => offense_direction(ball.position@, ball.velocity@, opponent_goal),
        Role::Defense => defense_direction(ball.position@, own_goal, opponent_goal),
    }
}

/// How far from the ball's centre the role makes contact, as a multiple of
/// the ball radius in thousandths.
pub open spec fn contact_multiple(role: Role, tuning: Tuning) -> int {
    match role {
        Role::Offense => tuning.offense_offset as int,
        Role::Defense => tuning.defense_offset as int,
    }
}

/// The vector of length `multiple` thousandths of `radius` along the unit
/// direction `direction`, each component rounded away from zero, so that it
/// is never shorter than that.
pub open spec fn offset(direction: Vector, radius: int, multiple: int) -> Vector {
    direction.scaled(radius * multiple).divided_up(1000 * UNIT)
}

/// The point at `multiple` thousandths of `radius` from the ball's centre,
/// on the side away from `direction`.
pub open spec fn contact(ball: Vector, direction: Vector, radius: int, multiple: int) -> Vector {
    ball.minus(offset(direction, radius, multiple))
}

/// The straight way from the car to the target runs through the ball: the
/// target is farther from the car than the ball is, and not so near that the
/// car passes under the ball.
pub open spec fn blocked(car: Vector, ball: Vector, target: Vector) -> bool {
    let to_target = target.minus(car).norm_sq();
    to_target > ball.minus(car).norm_sq() && (ball.z <= 0 || to_target >= ball.z * ball.z)
}

/// The part of the way from the ball to the target that lies across the way
/// from the car to the ball, multiplied by the squared distance from the car
/// to the ball.
pub open spec fn sideways(car: Vector, ball: Vector, target: Vector) -> Vector {
    target.minus(ball).rejected(ball.minus(car))
}

/// The target lies less than `clearance` thousandths of `radius` off the
/// line through the car and the ball. Both sides of the comparison are
/// multiplied by a thousand times the squared distance from the car to the
/// ball, and squared.
pub open spec fn too_close(car: Vector, ball: Vector, target: Vector, radius: int, clearance: int) -> bool {
    let reach = ball.minus(car).norm_sq() * (radius * clearance);
    1_000_000 * sideways(car, ball, target).norm_sq() < reach * reach
}

/// The target, pushed sideways off the line through the car and the ball
/// when that line is blocked and the target is too close to it. A target
/// exactly on the line has no side to be pushed to and stays, as does any
/// target when the car is at the ball's centre.
pub open spec fn detoured(car: Vector, ball: Vector, target: Vector, tuning: Tuning) -> Vector {
    let side = sideways(car, ball, target);
    if blocked(car, ball, target) && !ball.minus(car).is_zero() && too_close(
        car,
        ball,
        target,
        tuning.ball_radius as int,
        tuning.clearance as int,
    ) && !side.is_zero() {
        target.plus(offset(side.unit(), tuning.ball_radius as int, tuning.push as int))
    } else {
        target
    }
}

/// The target of the tick: the contact point for the role's direction, taken
/// around the ball where needed. There is none when the role has no
/// direction.
pub open spec fn planned(
    role: Role,
    ball: Ball,
    car: Vector,
    own_goal: Vector,
    opponent_goal: Vector,
    tuning: Tuning,
) -> Option<Vector> {
    match approach(role, ball, own_goal, opponent_goal) {
        Some(direction) => Some(
            detoured(
                car,
                ball.position@,
                contact(
                    ball.position@,
                    direction,
                    tuning.ball_radius as int,
                    contact_multiple(role, tuning),
                ),
                tuning,
            ),
        ),
        None => None,
    }
}

/// The unit direction of the way from `from` to `to`, or nothing when the
/// two points are the same.
fn direction_between(from: &Vec3, to: &Vec3) -> (r: Option<Vec3>)
    requires
        from@.within(COORD_LIMIT as int),
        to@.within(COORD_LIMIT as int),
    ensures
        r.is_none() <==> to@.minus(from@).is_zero(),
        r matches Some(u) ==> u@ == to@.minus(from@).unit() && u@.within(UNIT as int),
{
    to.minus(from).normalize_checked()
}

/// The direction in which the role wants the ball to go before the ball's
/// own motion is taken into account, as a unit direction.
pub fn wanted_direction(role: Role, ball: &Vec3, own_goal: &Vec3, opponent_goal: &Vec3) -> (r:
    Option<Vec3>)
    requires
        ball@.within(COORD_LIMIT as int),
        own_goal@.within(COORD_LIMIT as int),
        opponent_goal@.within(COORD_LIMIT as int),
    ensures
        view_of(r) == wanted(role, ball@, own_goal@, opponent_goal@),
        r matches Some(u) ==> u@.within(UNIT as int),
{
    match role {
        Role::Offense => direction_between(ball, opponent_goal),
        Role::Defense => blend_direction(ball, own_goal, opponent_goal),
    }
}

/// The direction of the blend, as a unit direction.
fn blend_direction(ball: &Vec3, own_goal: &Vec3, opponent_goal: &Vec3) -> (r: Option<Vec3>)
    requires
        ball@.within(COORD_LIMIT as int),
        own_goal@.within(COORD_LIMIT as int),
        opponent_goal@.within(COORD_LIMIT as int),
    ensures
        view_of(r) == defense_direction(ball@, own_goal@, opponent_goal@),
        r matches Some(u) ==> u@.within(UNIT as int),
{
    let to_opponent = opponent_goal.minus(ball);
    let to_own = own_goal.minus(ball);
    if to_opponent.is_zero() || to_own.is_zero() {
        return None;
    }
    proof {
        lemma_dot_bound(to_own@, to_own@, 2 * COORD_LIMIT, 2 * COORD_LIMIT);
        lemma_dot_bound(to_opponent@, to_opponent@, 2 * COORD_LIMIT, 2 * COORD_LIMIT);
        lemma_norm_sq_positive(to_own@);
        lemma_norm_sq_positive(to_opponent@);
        let bound = 3 * ((2 * COORD_LIMIT) * (2 * COORD_LIMIT));
        lemma_scaled_within(to_opponent@, to_own@.norm_sq(), 2 * COORD_LIMIT, bound);
        lemma_scaled_within(to_own@, to_opponent@.norm_sq(), 2 * COORD_LIMIT, bound);
    }
    let own_sq: i64 = to_own.norm_sq() as i64;
    let opponent_sq: i64 = to_opponent.norm_sq() as i64;
    let blend = to_opponent.scaled(own_sq).minus(&to_own.scaled(opponent_sq));
    blend.normalize_checked()
}

/// The direction in which the role wants the ball to go, as a unit
/// direction.
pub fn approach_direction(role: Role, ball: &Ball, own_goal: &Vec3, opponent_goal: &Vec3) -> (r:
    Option<Vec3>)
    requires
        ball.wf(),
        own_goal@.within(COORD_LIMIT as int),
        opponent_goal@.within(COORD_LIMIT as int),
    ensures
        view_of(r) == approach(role, *ball, own_goal@, opponent_goal@),
        r matches Some(u) ==> u@.within(UNIT as int),
{
    match role {
        Role::Offense => {
            let toward = match direction_between(&ball.position, opponent_goal) {
                Some(u) => u,
                None => {
                    return None;
                },
            };
            match ball.velocity.normalize_checked() {
                None => Some(toward),
                Some(moving) => {
                    match toward.minus(&moving).normalize_checked() {
                        Some(adjusted) => Some(adjusted),
                        None => Some(toward),
                    }
                },
            }
        },
        Role::Defense => blend_direction(&ball.position, own_goal, opponent_goal),
    }
}

/// The vector of length `multiple` thousandths of `radius` along the unit
/// direction `direction`.
fn offset_along(direction: &Vec3, radius: i64, multiple: i64) -> (r: Vec3)
    requires
        direction@.within(UNIT as int),
        1 <= radius <= RADIUS_LIMIT,
        0 <= multiple <= MULTIPLE_LIMIT,
    ensures
        r@ == offset(direction@, radius as int, multiple as int),
        r@.within(OFFSET_LIMIT as int),
{
    proof {
        lemma_offset_within(direction@, radius as int, multiple as int);
        lemma_product_bound(
            radius as int,
            multiple as int,
            RADIUS_LIMIT as int,
            MULTIPLE_LIMIT as int,
        );
    }
    direction.scaled(radius * multiple).divided_up(1000 * UNIT)
}

/// The point at `multiple` thousandths of `radius` from the ball's centre,
/// on the side away from the unit direction `direction`.
pub fn contact_point(ball: &Vec3, direction: &Vec3, radius: i64, multiple: i64) -> (r: Vec3)
    requires
        ball@.within(COORD_LIMIT as int),
        direction@.within(UNIT as int),
        1 <= radius <= RADIUS_LIMIT,
        0 <= multiple <= MULTIPLE_LIMIT,
    ensures
        r@ == contact(ball@, direction@, radius as int, multiple as int),
        r@.within(CONTACT_LIMIT as int),
{
    ball.minus(&offset_along(direction, radius, multiple))
}

/// Whether the straight way from the car to the target runs through the
/// ball.
pub fn is_blocked(car: &Vec3, ball: &Vec3, target: &Vec3) -> (r: bool)
    requires
        car@.within(COORD_LIMIT as int),
        ball@.within(COORD_LIMIT as int),
        target@.within(CONTACT_LIMIT as int),
    ensures
        r == blocked(car@, ball@, target@),
{
    let to_target = target.minus(car);
    let to_ball = ball.minus(car);
    proof {
        lemma_dot_bound(to_target@, to_target@, 4 * COORD_LIMIT, 4 * COORD_LIMIT);
        lemma_dot_bound(to_ball@, to_ball@, 2 * COORD_LIMIT, 2 * COORD_LIMIT);
        lemma_product_bound(ball.z as int, ball.z as int, COORD_LIMIT as int, COORD_LIMIT as int);
    }
    let target_sq: i128 = to_target.norm_sq();
    let height: i128 = ball.z as i128;
    target_sq > to_ball.norm_sq() && (ball.z <= 0 || target_sq >= height * height)
}

/// Takes the target around the ball when the ball stands in the way.
pub fn go_around(car: &Vec3, ball: &Vec3, target: &Vec3, tuning: &Tuning) -> (r: Vec3)
    requires
        car@.within(COORD_LIMIT as int),
        ball@.within(COORD_LIMIT as int),
        target@.within(CONTACT_LIMIT as int),
        tuning.wf(),
    ensures
        r@ == detoured(car@, ball@, target@, *tuning),
        r@.within(TARGET_LIMIT as int),
        blocked(car@, ball@, target@) && too_close(
            car@,
            ball@,
            target@,
            tuning.ball_radius as int,
            tuning.clearance as int,
        ) && !sideways(car@, ball@, target@).is_zero() ==> !too_close(
            car@,
            ball@,
            r@,
            tuning.ball_radius as int,
            tuning.push as int,
        ),
{
    proof {
        if blocked(car@, ball@, target@) && too_close(
            car@,
            ball@,
            target@,
            tuning.ball_radius as int,
            tuning.clearance as int,
        ) && !sideways(car@, ball@, target@).is_zero() {
            law_detour_clears_the_line(car@, ball@, target@, *tuning);
        }
    }
    let to_ball = ball.minus(car);
    if !is_blocked(car, ball, target) || to_ball.is_zero() {
        return *target;
    }
    proof {
        lemma_dot_bound(to_ball@, to_ball@, 2 * COORD_LIMIT, 2 * COORD_LIMIT);
    }
    let ball_sq: i128 = to_ball.norm_sq();
    let past = target.minus(ball);
    let side = reject(&past, &to_ball);
    proof {
        let bound = 3 * ((4 * COORD_LIMIT) * (4 * COORD_LIMIT));
        lemma_dot_bound(to_ball@, past@, 4 * COORD_LIMIT, 4 * COORD_LIMIT);
        lemma_scaled_within(past@, to_ball@.norm_sq(), 4 * COORD_LIMIT, bound);
        lemma_scaled_within(to_ball@, to_ball@.dot(past@), 4 * COORD_LIMIT, bound);
        let limit = 2 * (bound * (4 * COORD_LIMIT));
        assert(side@.within(limit));
        lemma_dot_bound(side@, side@, limit, limit);
        lemma_product_bound(
            tuning.ball_radius as int,
            tuning.clearance as int,
            RADIUS_LIMIT as int,
            MULTIPLE_LIMIT as int,
        );
        lemma_product_bound(
            ball_sq as int,
            tuning.ball_radius * tuning.clearance,
            bound,
            RADIUS_LIMIT * MULTIPLE_LIMIT,
        );
        let reach_limit = bound * (RADIUS_LIMIT * MULTIPLE_LIMIT);
        lemma_product_bound(
            ball_sq * (tuning.ball_radius * tuning.clearance),
            ball_sq * (tuning.ball_radius * tuning.clearance),
            reach_limit,
            reach_limit,
        );
        let side_sq = side@.norm_sq();
        let reach = ball_sq * (tuning.ball_radius * tuning.clearance);
        assert(1_000_000 * side_sq <= i128::MAX) by (nonlinear_arith)
            requires
                side_sq <= 3 * (limit * limit),
                limit == 1_688_849_860_263_936,
        ;
        assert(-i128::MAX <= reach * reach <= i128::MAX) by (nonlinear_arith)
            requires
                -(reach_limit * reach_limit) <= reach * reach <= reach_limit * reach_limit,
                reach_limit == 422_212_465_065_984_000,
        ;
        lemma_norm_sq_positive(side@);
    }
    let side_sq: i128 = side.norm_sq();
    let reach: i128 = ball_sq * ((tuning.ball_radius * tuning.clearance) as i128);
    if 1_000_000 * side_sq < reach * reach {
        match side.normalize_checked() {
            Some(outward) => target.plus(
                &offset_along(&outward, tuning.ball_radius, tuning.push),
            ),
            None => *target,
        }
    } else {
        *target
    }
}

/// The target of the tick for the given role.
pub fn plan_target(
    role: Role,
    ball: &Ball,
    car: &Vec3,
    own_goal: &Vec3,
    opponent_goal: &Vec3,
    tuning: &Tuning,
) -> (r: Option<Vec3>)
    requires
        ball.wf(),
        car@.within(COORD_LIMIT as int),
        own_goal@.within(COORD_LIMIT as int),
        opponent_goal@.within(COORD_LIMIT as int),
        tuning.wf(),
    ensures
        view_of(r) == planned(role, *ball, car@, own_goal@, opponent_goal@, *tuning),
        r.is_some() <==> approach(role, *ball, own_goal@, opponent_goal@).is_some(),
        r matches Some(t) ==> t@.within(TARGET_LIMIT as int),
{
    let multiple = match role {
        Role::Offense => tuning.offense_offset,
        Role::Defense => tuning.defense_offset,
    };
    match approach_direction(role, ball, own_goal, opponent_goal) {
        Some(direction) => {
            let point = contact_point(&ball.position, &direction, tuning.ball_radius, multiple);
            Some(go_around(car, &ball.position, &point, tuning))
        },
        None => None,
    }
}

} // verus!
