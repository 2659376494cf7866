//! From a target to actuator commands: throttle and steering from the
//! heading error, a jump or a levelling correction from the car's attitude,
//! and boost.
//!
//! Commands are in millionths of full deflection, and angles are read in
//! millionths of a degree.

use vstd::prelude::*;
use crate::angle::{in_range_degrees, Angle, HALF_TURN_DEGREES, QUARTER_TURN_DEGREES};
use crate::fixed::{abs, abs_i64, clamp, clamp_i64, lemma_quot, quot};
use crate::planner::TARGET_LIMIT;
use crate::role::Role;
use crate::snapshot::{Ball, Car, COORD_LIMIT};
use crate::tuning::Tuning;
use crate::arith::lemma_product_bound;
use crate::vector::{Vec3, Vector};
use crate::vector_laws::{lemma_dot_bound, lemma_norm_sq_positive};

verus! {

/// Full deflection of a command.
pub const FULL: i64 = 1_000_000;

/// The commands of one tick.
#[derive(Clone, Copy, Debug, PartialEq, Eq, Structural)]
pub struct ControlOutput {
    pub throttle: i64,
    pub steer: i64,
    pub pitch: i64,
    pub yaw: i64,
    pub roll: i64,
    pub jump: bool,
    pub boost: bool,
}

impl ControlOutput {
    /// No command exceeds full deflection.
    pub open spec fn wf(&self) -> bool {
        &&& -FULL <= self.throttle <= FULL
        &&& -FULL <= self.steer <= FULL
        &&& -FULL <= self.pitch <= FULL
        &&& -FULL <= self.yaw <= FULL
        &&& -FULL <= self.roll <= FULL
    }

    /// The commands that do nothing.
    pub open spec fn idle() -> ControlOutput {
        ControlOutput {
            throttle: 0,
            steer: 0,
            pitch: 0,
            yaw: 0,
            roll: 0,
            jump: false,
            boost: false,
        }
    }

    /// The commands that do nothing: for a tick on which nothing can be
    /// decided.
    pub fn neutral() -> (r: ControlOutput)
        ensures
            r == ControlOutput::idle(),
            r.wf(),
    {
        ControlOutput {
            throttle: 0,
            steer: 0,
            pitch: 0,
            yaw: 0,
            roll: 0,
            jump: false,
            boost: false,
        }
    }
}

/// What the car does about its attitude, in order of priority.
#[derive(Clone, Copy, Debug, PartialEq, Eq, Structural)]
pub enum Maneuver {
    /// Jump off the wall.
    LeaveWall,
    /// Level out while falling.
    Level,
    /// Jump at a ball that comes down on the car.
    Header,
    /// Nothing.
    Hold,
}

/// A heading error, in millionths of a degree, times the steering gain, in
/// thousandths of a deflection per degree, limited to full deflection.
pub open spec fn steer_for(error: int, gain: int) -> int {
    clamp(quot(error * gain, 1000), -FULL as int, FULL as int)
}

/// Throttle and steering for a heading error: forward and toward the target
/// when it lies within a quarter turn, backward and steering the other way
/// when it does not.
pub open spec fn drive_for(error: int, gain: int) -> (int, int) {
    if abs(error) < QUARTER_TURN_DEGREES {
        (FULL as int, steer_for(error, gain))
    } else {
        (-FULL as int, steer_for(-error, gain))
    }
}

/// The command that turns a tilt of `angle` back toward level: a hundredth
/// of a deflection per degree, against the tilt.
pub open spec fn level_for(angle: int) -> int {
    clamp(quot(-angle, 100), -FULL as int, FULL as int)
}

/// The squared distance between two points, height left out.
pub open spec fn horizontal_sq(a: Vector, b: Vector) -> int {
    (b.x - a.x) * (b.x - a.x) + (b.y - a.y) * (b.y - a.y)
}

/// The car is higher than two ball radii.
pub open spec fn raised(car: Car, tuning: Tuning) -> bool {
    car.position.z > 2 * tuning.ball_radius
}

/// The car clings to a side wall: raised, wheels in contact, pitched or
/// rolled beyond the wall tilt, and within two ball radii of a side wall.
pub open spec fn on_wall(car: Car, tuning: Tuning) -> bool {
    &&& raised(car, tuning)
    &&& car.wheel_contact
    &&& (abs(car.pitch.in_degrees()) > tuning.wall_tilt || abs(car.roll.in_degrees())
        > tuning.wall_tilt)
    &&& abs(car.position.x as int) > tuning.wall_x - 2 * tuning.ball_radius
}

/// The car is in the air and coming down.
pub open spec fn falling(car: Car, tuning: Tuning) -> bool {
    raised(car, tuning) && !car.wheel_contact && car.velocity.z < 0
}

/// The ball comes down over the car: the target is less than a ball radius
/// away on the ground, and the ball is more than a ball radius above the car
/// and sinking.
pub open spec fn dropping(car: Car, ball: Ball, target: Vector, tuning: Tuning) -> bool {
    &&& horizontal_sq(car.position@, target) < tuning.ball_radius * tuning.ball_radius
    &&& ball.position.z - car.position.z > tuning.ball_radius
    &&& ball.velocity.z < 0
}

/// The ball comes down over the car, and at its speed it lands before the
/// header fall time is over: its height over its sinking speed is less than
/// that time.
pub open spec fn header_chance(car: Car, ball: Ball, target: Vector, tuning: Tuning) -> bool {
    dropping(car, ball, target, tuning) && 1000 * ball.position.z < tuning.header_fall_time * (
    -ball.velocity.z)
}

/// The first of the maneuvers whose condition holds.
pub open spec fn maneuver_for(car: Car, ball: Ball, target: Vector, tuning: Tuning) -> Maneuver {
    if on_wall(car, tuning) {
        Maneuver::LeaveWall
    } else if falling(car, tuning) {
        Maneuver::Level
    } else if header_chance(car, ball, target, tuning) {
        Maneuver::Header
    } else {
        Maneuver::Hold
    }
}

/// The target is more than `multiple` thousandths of `radius` away on the
/// ground. Both sides are multiplied by a thousand and squared.
pub open spec fn far_away(car: Vector, target: Vector, radius: int, multiple: int) -> bool {
    1_000_000 * horizontal_sq(car, target) > (radius * multiple) * (radius * multiple)
}

/// The car's line to the ball and the ball's line to the opponent's goal
/// enclose an angle whose squared cosine is more than `alignment`
/// millionths, and which is less than a quarter turn.
pub open spec fn lined_up(car: Vector, ball: Vector, opponent_goal: Vector, alignment: int) -> bool {
    let to_goal = opponent_goal.minus(ball);
    let to_ball = ball.minus(car);
    let along = to_goal.dot(to_ball);
    along > 0 && 1_000_000 * (along * along) > alignment * (to_goal.norm_sq() * to_ball.norm_sq())
}

/// Boost is spent during the kickoff while there is fuel, on a long approach
/// along the ground, and on offense when the shot is lined up.
pub open spec fn boost_for(
    role: Role,
    car: Car,
    ball: Vector,
    target: Vector,
    opponent_goal: Vector,
    kickoff_active: bool,
    tuning: Tuning,
) -> bool {
    ||| kickoff_active && car.boost_fuel > 0
    ||| far_away(car.position@, target, tuning.ball_radius as int, tuning.long_approach as int)
        && car.position.z < tuning.ball_radius
    ||| role == Role::Offense && lined_up(car.position@, ball, opponent_goal, tuning.alignment as int)
}

/// The commands of the tick.
pub open spec fn controls(
    role: Role,
    car: Car,
    ball: Ball,
    target: Vector,
    opponent_goal: Vector,
    kickoff_active: bool,
    desired_yaw: Angle,
    tuning: Tuning,
) -> ControlOutput {
    let error = desired_yaw.rotation_from(car.yaw).in_degrees();
    let (throttle, steer) = drive_for(error, tuning.steer_gain as int);
    let maneuver = maneuver_for(car, ball, target, tuning);
    let level = maneuver == Maneuver::Level;
    ControlOutput {
        throttle: throttle as i64,
        steer: steer as i64,
        pitch: if level {
            level_for(car.pitch.in_degrees()) as i64
        } else {
            0
        },
        yaw: if level {
            steer as i64
        } else {
            0
        },
        roll: if level {
            level_for(car.roll.in_degrees()) as i64
        } else {
            0
        },
        jump: maneuver == Maneuver::LeaveWall || maneuver == Maneuver::Header,
        boost: boost_for(role, car, ball.position@, target, opponent_goal, kickoff_active, tuning),
    }
}

/// Throttle and steering for a heading error.
pub fn drive(heading_error: Angle, tuning: &Tuning) -> (r: (i64, i64))
    requires
        heading_error.canonical(),
        tuning.wf(),
    ensures
        (r.0 as int, r.1 as int) == drive_for(
            heading_error.in_degrees(),
            tuning.steer_gain as int,
        ),
        r.0 == FULL || r.0 == -FULL,
        -FULL <= r.1 <= FULL,
{
    let error = heading_error.degrees();
    proof {
        lemma_product_bound(
            error as int,
            tuning.steer_gain as int,
            HALF_TURN_DEGREES as int,
            crate::tuning::SETTING_LIMIT as int,
        );
        lemma_product_bound(
            -error as int,
            tuning.steer_gain as int,
            HALF_TURN_DEGREES as int,
            crate::tuning::SETTING_LIMIT as int,
        );
    }
    if abs_i64(error) < QUARTER_TURN_DEGREES {
        (FULL, clamp_i64(error * tuning.steer_gain / 1000, -FULL, FULL))
    } else {
        (-FULL, clamp_i64(-error * tuning.steer_gain / 1000, -FULL, FULL))
    }
}

/// The command that turns a tilt back toward level.
pub fn level(tilt: Angle) -> (r: i64)
    requires
        tilt.canonical(),
    ensures
        r == level_for(tilt.in_degrees()),
        -FULL <= r <= FULL,
{
    clamp_i64(-tilt.degrees() / 100, -FULL, FULL)
}

/// The squared distance from the car to the target, height left out.
fn horizontal_distance_sq(car: &Vec3, target: &Vec3) -> (r: i64)
    requires
        car@.within(COORD_LIMIT as int),
        target@.within(TARGET_LIMIT as int),
    ensures
        r == horizontal_sq(car@, target@),
        0 <= r <= 2 * ((COORD_LIMIT + TARGET_LIMIT) * (COORD_LIMIT + TARGET_LIMIT)),
{
    let dx = target.x - car.x;
    let dy = target.y - car.y;
    proof {
        let limit = COORD_LIMIT + TARGET_LIMIT;
        lemma_product_bound(dx as int, dx as int, limit, limit);
        lemma_product_bound(dy as int, dy as int, limit, limit);
        assert(dx * dx >= 0 && dy * dy >= 0) by (nonlinear_arith);
    }
    dx * dx + dy * dy
}

/// Whether the ball comes down over the car.
pub fn drops_on_car(car: &Car, ball: &Ball, target: &Vec3, tuning: &Tuning) -> (r: bool)
    requires
        car.wf(),
        ball.wf(),
        target@.within(TARGET_LIMIT as int),
        tuning.wf(),
    ensures
        r == dropping(*car, *ball, target@, *tuning),
{
    let radius = tuning.ball_radius;
    proof {
        lemma_product_bound(
            radius as int,
            radius as int,
            crate::tuning::RADIUS_LIMIT as int,
            crate::tuning::RADIUS_LIMIT as int,
        );
    }
    horizontal_distance_sq(&car.position, target) < radius * radius && ball.position.z
        - car.position.z > radius && ball.velocity.z < 0
}

/// What the car does about its attitude.
pub fn choose_maneuver(car: &Car, ball: &Ball, target: &Vec3, tuning: &Tuning) -> (r: Maneuver)
    requires
        car.wf(),
        ball.wf(),
        target@.within(TARGET_LIMIT as int),
        tuning.wf(),
    ensures
        r == maneuver_for(*car, *ball, target@, *tuning),
{
    let radius = tuning.ball_radius;
    let raised = car.position.z > 2 * radius;
    let tilted = abs_i64(car.pitch.degrees()) > tuning.wall_tilt || abs_i64(car.roll.degrees())
        > tuning.wall_tilt;
    if raised && car.wheel_contact && tilted && abs_i64(car.position.x) > tuning.wall_x - 2
        * radius {
        return Maneuver::LeaveWall;
    }
    if raised && !car.wheel_contact && car.velocity.z < 0 {
        return Maneuver::Level;
    }
    proof {
        lemma_product_bound(
            tuning.header_fall_time as int,
            -ball.velocity.z as int,
            crate::tuning::SETTING_LIMIT as int,
            COORD_LIMIT as int,
        );
    }
    if drops_on_car(car, ball, target, tuning) && 1000 * ball.position.z
        < tuning.header_fall_time * (-ball.velocity.z) {
        return Maneuver::Header;
    }
    Maneuver::Hold
}

/// Whether the shot is lined up.
pub fn is_lined_up(car: &Vec3, ball: &Vec3, opponent_goal: &Vec3, alignment: i64) -> (r: bool)
    requires
        car@.within(COORD_LIMIT as int),
        ball@.within(COORD_LIMIT as int),
        opponent_goal@.within(COORD_LIMIT as int),
        0 <= alignment <= crate::tuning::SETTING_LIMIT,
    ensures
        r == lined_up(car@, ball@, opponent_goal@, alignment as int),
{
    let to_goal = opponent_goal.minus(ball);
    let to_ball = ball.minus(car);
    proof {
        let limit = 2 * COORD_LIMIT;
        let bound = 3 * (limit * limit);
        lemma_dot_bound(to_goal@, to_ball@, limit, limit);
        lemma_dot_bound(to_goal@, to_goal@, limit, limit);
        lemma_dot_bound(to_ball@, to_ball@, limit, limit);
        lemma_norm_sq_positive(to_goal@);
        lemma_norm_sq_positive(to_ball@);
        let along = to_goal@.dot(to_ball@);
        lemma_product_bound(along, along, bound, bound);
        lemma_product_bound(to_goal@.norm_sq(), to_ball@.norm_sq(), bound, bound);
        lemma_product_bound(
            alignment as int,
            to_goal@.norm_sq() * to_ball@.norm_sq(),
            crate::tuning::SETTING_LIMIT as int,
            bound * bound,
        );
        assert(bound * bound == 10_376_293_541_461_622_784) by (nonlinear_arith)
            requires
                bound == 3_221_225_472,
        ;
    }
    let along: i128 = to_goal.dot(&to_ball);
    let lengths: i128 = to_goal.norm_sq() * to_ball.norm_sq();
    along > 0 && 1_000_000 * (along * along) > (alignment as i128) * lengths
}

/// Whether boost is spent.
pub fn decide_boost(
    role: Role,
    car: &Car,
    ball: &Vec3,
    target: &Vec3,
    opponent_goal: &Vec3,
    kickoff_active: bool,
    tuning: &Tuning,
) -> (r: bool)
    requires
        car.wf(),
        ball@.within(COORD_LIMIT as int),
        target@.within(TARGET_LIMIT as int),
        opponent_goal@.within(COORD_LIMIT as int),
        tuning.wf(),
    ensures
        r == boost_for(role, *car, ball@, target@, opponent_goal@, kickoff_active, *tuning),
{
    if kickoff_active && car.boost_fuel > 0 {
        return true;
    }
    proof {
        lemma_product_bound(
            tuning.ball_radius as int,
            tuning.long_approach as int,
            crate::tuning::RADIUS_LIMIT as int,
            crate::tuning::MULTIPLE_LIMIT as int,
        );
        let reach = tuning.ball_radius * tuning.long_approach;
        let limit = crate::tuning::RADIUS_LIMIT * crate::tuning::MULTIPLE_LIMIT;
        lemma_product_bound(reach, reach, limit, limit);
    }
    let reach = tuning.ball_radius * tuning.long_approach;
    if 1_000_000 * horizontal_distance_sq(&car.position, target) > reach * reach
        && car.position.z < tuning.ball_radius {
        return true;
    }
    match role {
        Role::Offense => is_lined_up(&car.position, ball, opponent_goal, tuning.alignment),
        Role::Defense => false,
    }
}

/// The commands of the tick.
pub fn map_controls(
    role: Role,
    car: &Car,
    ball: &Ball,
    target: &Vec3,
    opponent_goal: &Vec3,
    kickoff_active: bool,
    desired_yaw: Angle,
    tuning: &Tuning,
) -> (r: ControlOutput)
    requires
        car.wf(),
        ball.wf(),
        target@.within(TARGET_LIMIT as int),
        opponent_goal@.within(COORD_LIMIT as int),
        desired_yaw.canonical(),
        tuning.wf(),
    ensures
        r == controls(
            role,
            *car,
            *ball,
            target@,
            opponent_goal@,
            kickoff_active,
            desired_yaw,
            *tuning,
        ),
        r.wf(),
{
    let (throttle, steer) = drive(desired_yaw - car.yaw, tuning);
    let maneuver = choose_maneuver(car, ball, target, tuning);
    let boost = decide_boost(
        role,
        car,
        &ball.position,
        target,
        opponent_goal,
        kickoff_active,
        tuning,
    );
    match maneuver {
        Maneuver::LeaveWall | Maneuver::Header => ControlOutput {
            throttle,
            steer,
            pitch: 0,
            yaw: 0,
            roll: 0,
            jump: true,
            boost,
        },
        Maneuver::Level => ControlOutput {
            throttle,
            steer,
            pitch: level(car.pitch),
            yaw: steer,
            roll: level(car.roll),
            jump: false,
            boost,
        },
        Maneuver::Hold => ControlOutput {
            throttle,
            steer,
            pitch: 0,
            yaw: 0,
            roll: 0,
            jump: false,
            boost,
        },
    }
}

/// Steering never exceeds full deflection and is saturated once the heading
/// error times the gain reaches it. Driving forward, the car steers toward
/// the target; backing up, it steers the other way.
pub proof fn law_drive_sign_and_limit(error: int, gain: int)
    requires
        in_range_degrees(error),
        gain >= 0,
    ensures
        ({
            let (throttle, steer) = drive_for(error, gain);
            &&& throttle == FULL <==> abs(error) < QUARTER_TURN_DEGREES
            &&& throttle == -FULL <==> abs(error) >= QUARTER_TURN_DEGREES
            &&& -FULL <= steer <= FULL
            &&& throttle == FULL && error >= 0 ==> steer >= 0
            &&& throttle == FULL && error <= 0 ==> steer <= 0
            &&& throttle == -FULL && error >= 0 ==> steer <= 0
            &&& throttle == -FULL && error <= 0 ==> steer >= 0
            &&& abs(error) * gain >= 1000 * FULL ==> abs(steer) == FULL
        }),
{
    let e = if abs(error) < QUARTER_TURN_DEGREES {
        error
    } else {
        -error
    };
    let t = e * gain;
    lemma_quot(t, 1000);
    assert(e >= 0 ==> t >= 0) by (nonlinear_arith)
        requires
            t == e * gain,
            gain >= 0,
    ;
    assert(e <= 0 ==> t <= 0) by (nonlinear_arith)
        requires
            t == e * gain,
            gain >= 0,
    ;
    assert(abs(t) == abs(error) * gain) by (nonlinear_arith)
        requires
            t == e * gain,
            e == error || e == -error,
            gain >= 0,
    ;
}

/// The levelling command works against the tilt, a hundredth of a deflection
/// per degree, and never exceeds full deflection.
pub proof fn law_level_opposes_tilt(angle: int)
    ensures
        -FULL <= level_for(angle) <= FULL,
        angle >= 0 ==> level_for(angle) <= 0,
        angle <= 0 ==> level_for(angle) >= 0,
        -100 * FULL <= angle <= 100 * FULL ==> level_for(angle) == quot(-angle, 100),
{
    lemma_quot(-angle, 100);
}

/// Jumping and levelling exclude each other; the car's attitude is commanded
/// only while it falls through the air, and is left alone otherwise; and a
/// car on the wall jumps whatever else holds.
pub proof fn law_maneuvers_are_exclusive(
    role: Role,
    car: Car,
    ball: Ball,
    target: Vector,
    opponent_goal: Vector,
    kickoff_active: bool,
    desired_yaw: Angle,
    tuning: Tuning,
)
    ensures
        ({
            let output = controls(
                role,
                car,
                ball,
                target,
                opponent_goal,
                kickoff_active,
                desired_yaw,
                tuning,
            );
            &&& output.jump ==> output.pitch == 0 && output.yaw == 0 && output.roll == 0
            &&& !falling(car, tuning) ==> output.pitch == 0 && output.yaw == 0 && output.roll == 0
            &&& on_wall(car, tuning) ==> output.jump
            &&& falling(car, tuning) ==> !output.jump && output.yaw == output.steer
            &&& output.jump <==> on_wall(car, tuning) || (!falling(car, tuning) && header_chance(
                car,
                ball,
                target,
                tuning,
            ))
        }),
{
}

/// With the tank empty the kickoff spends no boost: boost then comes only
/// from a long approach or a shot that is lined up.
pub proof fn law_empty_tank_ends_kickoff_boost(
    role: Role,
    car: Car,
    ball: Vector,
    target: Vector,
    opponent_goal: Vector,
    kickoff_active: bool,
    tuning: Tuning,
)
    requires
        car.boost_fuel == 0,
    ensures
        boost_for(role, car, ball, target, opponent_goal, kickoff_active, tuning) == boost_for(
            role,
            car,
            ball,
            target,
            opponent_goal,
            false,
            tuning,
        ),
{
}

} // verus!
