//! One tick of the agent, in two steps. The first takes note of the goals,
//! assesses the role and plans the target. Between the two the caller turns
//! the way from the car to the target into a heading, which takes an arc
//! tangent and so is not done here. The second maps the target and the
//! heading to commands and ends the kickoff when the fuel has run out.

use vstd::prelude::*;
use crate::angle::Angle;
use crate::control::{controls, map_controls, ControlOutput};
use crate::planner::{
    approach, approach_direction, blocked, contact, contact_multiple, contact_point, detoured,
    go_around, planned, sideways, too_close, wanted, wanted_direction, CONTACT_LIMIT,
    TARGET_LIMIT,
};
use crate::role::Role;
use crate::role::{assess_role, assessment, RoleAssessment};
use crate::snapshot::{Ball, Car, Snapshot, COORD_LIMIT};
use crate::state::PersistentAgentState;
use crate::tuning::Tuning;
use crate::vector::Vec3;

verus! {

/// Why nothing can be decided on a tick.
#[derive(Clone, Copy, Debug, PartialEq, Eq, Structural)]
pub enum Unavailable {
    /// The arena's geometry has not been told yet.
    FieldInfo,
    /// There is no ball.
    Ball,
    /// No goal of the car's own team is known.
    OwnGoal,
    /// No goal of another team is known.
    OpponentGoal,
    /// The role has no direction to send the ball in.
    Direction,
}

/// What the first step of a tick hands to the second, and what led to it.
#[derive(Clone, Copy, Debug, PartialEq, Eq, Structural)]
pub struct Plan {
    pub assessment: RoleAssessment,
    pub ball: Ball,
    pub opponent_goal: Vec3,
    /// Where the role wants the ball to go, as a unit direction.
    pub wanted: Vec3,
    /// The same with the ball's own motion taken into account.
    pub direction: Vec3,
    /// The point beside the ball to hit it from.
    pub contact: Vec3,
    /// The contact point, taken around the ball where needed: where to
    /// drive.
    pub target: Vec3,
}

impl Plan {
    /// The ball and the goal lie within the coordinate limit, the contact
    /// point within the contact limit and the target within the target
    /// limit.
    pub open spec fn wf(&self) -> bool {
        &&& self.ball.wf()
        &&& self.opponent_goal@.within(COORD_LIMIT as int)
        &&& self.contact@.within(CONTACT_LIMIT as int)
        &&& self.target@.within(TARGET_LIMIT as int)
    }

    /// Whether the ball and the goal lie within the coordinate limit, the
    /// contact point within the contact limit and the target within the
    /// target limit.
    pub fn is_valid(&self) -> (r: bool)
        ensures
            r == self.wf(),
    {
        self.ball.is_valid() && self.opponent_goal.is_within(COORD_LIMIT)
            && self.contact.is_within(CONTACT_LIMIT) && self.target.is_within(TARGET_LIMIT)
    }

    /// The way from the car to the target, whose horizontal components give
    /// the heading that the second step asks for.
    pub fn way_from(&self, car: &Car) -> (r: Vec3)
        requires
            self.wf(),
            car.wf(),
        ensures
            r@ == self.target@.minus(car.position@),
    {
        self.target.minus(&car.position)
    }
}

/// The memory after the first step: the goals of the snapshot are taken note
/// of when the snapshot has both goals and a ball, and nothing changes when
/// it has not.
pub open spec fn remembered(state: PersistentAgentState, snapshot: Snapshot) -> PersistentAgentState {
    match (snapshot.goals, snapshot.ball) {
        (Some(goals), Some(_)) => state.discovered(goals@, snapshot.car.team),
        _ => state,
    }
}

/// Why the first step decides nothing, if it does not: the first of the
/// reasons that applies, where `state` is the memory after the step.
pub open spec fn obstacle(state: PersistentAgentState, snapshot: Snapshot, tuning: Tuning) -> Option<
    Unavailable,
> {
    if snapshot.goals.is_none() {
        Some(Unavailable::FieldInfo)
    } else if snapshot.ball.is_none() {
        Some(Unavailable::Ball)
    } else if state.own_goal.is_none() {
        Some(Unavailable::OwnGoal)
    } else if state.opponent_goal.is_none() {
        Some(Unavailable::OpponentGoal)
    } else if target_for(state, snapshot, tuning).is_none() {
        Some(Unavailable::Direction)
    } else {
        None
    }
}

/// The role of the tick, for a memory that knows both goals and a snapshot
/// that has a ball.
pub open spec fn role_for(state: PersistentAgentState, snapshot: Snapshot) -> RoleAssessment {
    assessment(
        snapshot.car.position@,
        snapshot.opponent@,
        snapshot.ball.unwrap().position@,
        state.own_goal.unwrap()@,
        state.opponent_goal.unwrap()@,
    )
}

/// The target of the tick, for a memory that knows both goals and a snapshot
/// that has a ball.
pub open spec fn target_for(state: PersistentAgentState, snapshot: Snapshot, tuning: Tuning) -> Option<
    crate::vector::Vector,
> {
    planned(
        role_for(state, snapshot).role,
        snapshot.ball.unwrap(),
        snapshot.car.position@,
        state.own_goal.unwrap()@,
        state.opponent_goal.unwrap()@,
        tuning,
    )
}

/// The first step of a tick.
pub fn begin_tick(state: &mut PersistentAgentState, snapshot: &Snapshot, tuning: &Tuning) -> (r:
    Result<Plan, Unavailable>)
    requires
        old(state).wf(),
        snapshot.wf(),
        tuning.wf(),
    ensures
        *final(state) == remembered(*old(state), *snapshot),
        final(state).wf(),
        match r {
            Ok(plan) => {
                &&& obstacle(*final(state), *snapshot, *tuning).is_none()
                &&& plan.assessment == role_for(*final(state), *snapshot)
                &&& Some(plan.ball) == snapshot.ball
                &&& Some(plan.opponent_goal) == final(state).opponent_goal
                &&& Some(plan.wanted@) == wanted(
                    plan.assessment.role,
                    plan.ball.position@,
                    final(state).own_goal.unwrap()@,
                    plan.opponent_goal@,
                )
                &&& Some(plan.direction@) == approach(
                    plan.assessment.role,
                    plan.ball,
                    final(state).own_goal.unwrap()@,
                    plan.opponent_goal@,
                )
                &&& plan.contact@ == contact(
                    plan.ball.position@,
                    plan.direction@,
                    tuning.ball_radius as int,
                    contact_multiple(plan.assessment.role, *tuning),
                )
                &&& Some(plan.target@) == target_for(*final(state), *snapshot, *tuning)
                &&& plan.target@ == detoured(
                    snapshot.car.position@,
                    plan.ball.position@,
                    plan.contact@,
                    *tuning,
                )
                &&& blocked(snapshot.car.position@, plan.ball.position@, plan.contact@)
                    && too_close(
                    snapshot.car.position@,
                    plan.ball.position@,
                    plan.contact@,
                    tuning.ball_radius as int,
                    tuning.clearance as int,
                ) && !sideways(snapshot.car.position@, plan.ball.position@, plan.contact@).is_zero()
                    ==> !too_close(
                    snapshot.car.position@,
                    plan.ball.position@,
                    plan.target@,
                    tuning.ball_radius as int,
                    tuning.push as int,
                )
                &&& plan.wf()
            },
            Err(reason) => obstacle(*final(state), *snapshot, *tuning) == Some(reason),
        },
{
    let goals = match &snapshot.goals {
        Some(goals) => goals,
        None => {
            return Err(Unavailable::FieldInfo);
        },
    };
    let ball = match snapshot.ball {
        Some(ball) => ball,
        None => {
            return Err(Unavailable::Ball);
        },
    };
    state.discover_goals(goals, snapshot.car.team);
    let own_goal = match state.own_goal {
        Some(goal) => goal,
        None => {
            return Err(Unavailable::OwnGoal);
        },
    };
    let opponent_goal = match state.opponent_goal {
        Some(goal) => goal,
        None => {
            return Err(Unavailable::OpponentGoal);
        },
    };
    let assessment = assess_role(
        &snapshot.car.position,
        &snapshot.opponent,
        &ball.position,
        &own_goal,
        &opponent_goal,
    );
    let direction = match approach_direction(assessment.role, &ball, &own_goal, &opponent_goal) {
        Some(direction) => direction,
        None => {
            return Err(Unavailable::Direction);
        },
    };
    let wanted = match wanted_direction(
        assessment.role,
        &ball.position,
        &own_goal,
        &opponent_goal,
    ) {
        Some(wanted) => wanted,
        None => direction,
    };
    let multiple = match assessment.role {
        Role::Offense => tuning.offense_offset,
        Role::Defense => tuning.defense_offset,
    };
    let contact = contact_point(&ball.position, &direction, tuning.ball_radius, multiple);
    let target = go_around(&snapshot.car.position, &ball.position, &contact, tuning);
    Ok(Plan { assessment, ball, opponent_goal, wanted, direction, contact, target })
}

/// The second step of a tick: the commands for the plan and the heading
/// toward its target, and the end of the kickoff when the fuel has run out.
pub fn end_tick(
    state: &mut PersistentAgentState,
    car: &Car,
    plan: &Plan,
    desired_yaw: Angle,
    tuning: &Tuning,
) -> (r: ControlOutput)
    requires
        car.wf(),
        plan.wf(),
        desired_yaw.canonical(),
        tuning.wf(),
    ensures
        r == controls(
            plan.assessment.role,
            *car,
            plan.ball,
            plan.target@,
            plan.opponent_goal@,
            old(state).kickoff_active,
            desired_yaw,
            *tuning,
        ),
        r.wf(),
        *final(state) == old(state).observed(car.boost_fuel),
{
    let output = map_controls(
        plan.assessment.role,
        car,
        &plan.ball,
        &plan.target,
        &plan.opponent_goal,
        state.kickoff_active,
        desired_yaw,
        tuning,
    );
    state.update_kickoff(car.boost_fuel);
    output
}

/// Whatever a tick is shown, what the agent knows only grows: a goal that is
/// known stays as it is through both steps, and a kickoff that is over stays
/// over.
pub proof fn law_memory_only_grows(state: PersistentAgentState, snapshot: Snapshot)
    ensures
        ({
            let planned = remembered(state, snapshot);
            let after = planned.observed(snapshot.car.boost_fuel);
            &&& state.own_goal.is_some() ==> after.own_goal == state.own_goal
            &&& state.opponent_goal.is_some() ==> after.opponent_goal == state.opponent_goal
            &&& planned.kickoff_active == state.kickoff_active
            &&& !state.kickoff_active ==> !after.kickoff_active
            &&& after.kickoff_active <==> state.kickoff_active && snapshot.car.boost_fuel > 0
        }),
{
}

} // verus!
