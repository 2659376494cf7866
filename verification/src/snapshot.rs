//! What the agent is told about the world at one tick.

use vstd::prelude::*;
use crate::angle::Angle;
use crate::vector::Vec3;

verus! {

/// Largest coordinate of a position or a velocity, in absolute value, that
/// the arithmetic is proved for.
pub const COORD_LIMIT: i64 = 16_384;

/// The ball.
#[derive(Clone, Copy, Debug, PartialEq, Eq, Structural)]
pub struct Ball {
    pub position: Vec3,
    pub velocity: Vec3,
}

/// The car that the agent drives.
#[derive(Clone, Copy, Debug, PartialEq, Eq, Structural)]
pub struct Car {
    pub position: Vec3,
    pub velocity: Vec3,
    pub pitch: Angle,
    pub yaw: Angle,
    pub roll: Angle,
    /// Whether the wheels touch the ground or a wall.
    pub wheel_contact: bool,
    pub boost_fuel: u32,
    pub team: i32,
}

/// One goal of the arena.
#[derive(Clone, Copy, Debug, PartialEq, Eq, Structural)]
pub struct Goal {
    pub team: i32,
    pub position: Vec3,
}

/// The world at one tick. The ball is missing at times, and the goals are
/// missing until the arena's geometry has been asked for.
#[derive(Debug)]
pub struct Snapshot {
    pub ball: Option<Ball>,
    pub car: Car,
    pub opponent: Vec3,
    pub goals: Option<Vec<Goal>>,
}

impl Ball {
    /// Position and velocity lie within the coordinate limit.
    pub open spec fn wf(&self) -> bool {
        self.position@.within(COORD_LIMIT as int) && self.velocity@.within(COORD_LIMIT as int)
    }

    /// Whether position and velocity lie within the coordinate limit.
    pub fn is_valid(&self) -> (r: bool)
        ensures
            r == self.wf(),
    {
        self.position.is_within(COORD_LIMIT) && self.velocity.is_within(COORD_LIMIT)
    }
}

impl Car {
    /// Position and velocity lie within the coordinate limit and the three
    /// angles are canonical.
    pub open spec fn wf(&self) -> bool {
        &&& self.position@.within(COORD_LIMIT as int)
        &&& self.velocity@.within(COORD_LIMIT as int)
        &&& self.pitch.canonical()
        &&& self.yaw.canonical()
        &&& self.roll.canonical()
    }

    /// Whether position and velocity lie within the coordinate limit and the
    /// three angles are canonical.
    pub fn is_valid(&self) -> (r: bool)
        ensures
            r == self.wf(),
    {
        self.position.is_within(COORD_LIMIT) && self.velocity.is_within(COORD_LIMIT)
            && self.pitch.is_canonical() && self.yaw.is_canonical() && self.roll.is_canonical()
    }
}

/// Every goal of the list lies within the coordinate limit.
pub open spec fn goals_wf(goals: Seq<Goal>) -> bool {
    forall|i: int| 0 <= i < goals.len() ==> (#[trigger] goals[i]).position@.within(COORD_LIMIT as int)
}

/// Whether every goal of the list lies within the coordinate limit.
pub fn goals_are_valid(goals: &Vec<Goal>) -> (r: bool)
    ensures
        r == goals_wf(goals@),
{
    let mut i: usize = 0;
    while i < goals.len()
        invariant
            i <= goals.len(),
            forall|j: int| 0 <= j < i ==> (#[trigger] goals@[j]).position@.within(COORD_LIMIT as int),
        decreases goals.len() - i,
    {
        if !goals[i].position.is_within(COORD_LIMIT) {
            return false;
        }
        i += 1;
    }
    true
}

impl Snapshot {
    /// Every position and velocity lies within the coordinate limit and the
    /// car's angles are canonical.
    pub open spec fn wf(&self) -> bool {
        &&& self.car.wf()
        &&& self.opponent@.within(COORD_LIMIT as int)
        &&& self.ball matches Some(ball) ==> ball.wf()
        &&& self.goals matches Some(goals) ==> goals_wf(goals@)
    }

    /// Whether every position and velocity lies within the coordinate limit
    /// and the car's angles are canonical.
    pub fn is_valid(&self) -> (r: bool)
        ensures
            r == self.wf(),
    {
        if !self.car.is_valid() || !self.opponent.is_within(COORD_LIMIT) {
            return false;
        }
        match &self.ball {
            Some(ball) => {
                if !ball.is_valid() {
                    return false;
                }
            },
            None => {},
        }
        match &self.goals {
            Some(goals) => goals_are_valid(goals),
            None => true,
        }
    }
}

} // verus!
