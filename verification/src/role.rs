//! Whether the agent attacks or defends, read off the distances between the
//! ball, the cars and the goals.
//!
//! Distances are compared by their squares, which orders them the same way.

use vstd::prelude::*;
use crate::snapshot::COORD_LIMIT;
use crate::vector::{Vec3, Vector};
use crate::vector_laws::lemma_dot_bound;

verus! {

/// The tactical role.
#[derive(Clone, Copy, Debug, PartialEq, Eq, Structural)]
pub enum Role {
    Offense,
    Defense,
}

/// The role, and whether it comes with a breakaway.
#[derive(Clone, Copy, Debug, PartialEq, Eq, Structural)]
pub struct RoleAssessment {
    pub role: Role,
    pub breakaway: bool,
}

/// The squared distance between two points.
pub open spec fn distance_sq(a: Vector, b: Vector) -> int {
    a.minus(b).norm_sq()
}

/// The ball is nearer to the opponent's goal than to the agent's own.
pub open spec fn ball_nearer_opponent_goal(ball: Vector, own_goal: Vector, opponent_goal: Vector) -> bool {
    distance_sq(own_goal, ball) > distance_sq(opponent_goal, ball)
}

/// The ball is nearer to the opponent's goal than the car is, and the car is
/// nearer to it than the opponent.
pub open spec fn is_breakaway(car: Vector, opponent: Vector, ball: Vector, opponent_goal: Vector) -> bool {
    distance_sq(opponent_goal, ball) < distance_sq(opponent_goal, car) && distance_sq(
        opponent_goal,
        car,
    ) < distance_sq(opponent_goal, opponent)
}

/// Offense when the ball is nearer to the opponent's goal or on a breakaway,
/// defense otherwise.
pub open spec fn assessment(
    car: Vector,
    opponent: Vector,
    ball: Vector,
    own_goal: Vector,
    opponent_goal: Vector,
) -> RoleAssessment {
    let breakaway = is_breakaway(car, opponent, ball, opponent_goal);
    RoleAssessment {
        role: if ball_nearer_opponent_goal(ball, own_goal, opponent_goal) || breakaway {
            Role::Offense
        } else {
            Role::Defense
        },
        breakaway,
    }
}

/// The squared distance between two points within the coordinate limit.
pub fn squared_distance(a: &Vec3, b: &Vec3) -> (r: i64)
    requires
        a@.within(COORD_LIMIT as int),
        b@.within(COORD_LIMIT as int),
    ensures
        r == distance_sq(a@, b@),
        0 <= r <= 12 * (COORD_LIMIT * COORD_LIMIT),
{
    let d = a.minus(b);
    proof {
        lemma_dot_bound(d@, d@, 2 * COORD_LIMIT, 2 * COORD_LIMIT);
    }
    let n: i128 = d.norm_sq();
    n as i64
}

/// Assesses the role from the positions of the car, the opponent, the ball
/// and the two goals.
pub fn assess_role(
    car: &Vec3,
    opponent: &Vec3,
    ball: &Vec3,
    own_goal: &Vec3,
    opponent_goal: &Vec3,
) -> (r: RoleAssessment)
    requires
        car@.within(COORD_LIMIT as int),
        opponent@.within(COORD_LIMIT as int),
        ball@.within(COORD_LIMIT as int),
        own_goal@.within(COORD_LIMIT as int),
        opponent_goal@.within(COORD_LIMIT as int),
    ensures
        r == assessment(car@, opponent@, ball@, own_goal@, opponent_goal@),
{
    let ball_to_own = squared_distance(own_goal, ball);
    let ball_to_opponent = squared_distance(opponent_goal, ball);
    let car_to_opponent_goal = squared_distance(opponent_goal, car);
    let opponent_to_goal = squared_distance(opponent_goal, opponent);
    let breakaway = ball_to_opponent < car_to_opponent_goal && car_to_opponent_goal
        < opponent_to_goal;
    let role = if ball_to_own > ball_to_opponent || breakaway {
        Role::Offense
    } else {
        Role::Defense
    };
    RoleAssessment { role, breakaway }
}

/// When the car is farther from the opponent's goal than the opponent is,
/// there is no breakaway, wherever the ball and the agent's own goal are.
pub proof fn law_no_breakaway_behind_opponent(
    car: Vector,
    opponent: Vector,
    ball: Vector,
    own_goal: Vector,
    opponent_goal: Vector,
)
    requires
        distance_sq(opponent_goal, car) > distance_sq(opponent_goal, opponent),
    ensures
        !assessment(car, opponent, ball, own_goal, opponent_goal).breakaway,
        !is_breakaway(car, opponent, ball, opponent_goal),
{
}

/// A breakaway is always played on offense.
pub proof fn law_breakaway_is_offense(
    car: Vector,
    opponent: Vector,
    ball: Vector,
    own_goal: Vector,
    opponent_goal: Vector,
)
    requires
        is_breakaway(car, opponent, ball, opponent_goal),
    ensures
        assessment(car, opponent, ball, own_goal, opponent_goal).role == Role::Offense,
{
}

} // verus!
