//! The constants that shape the agent's behaviour, gathered so that a caller
//! can change them.

use vstd::prelude::*;

verus! {

/// Largest ball radius that the arithmetic is proved for.
pub const RADIUS_LIMIT: i64 = 1024;

/// Largest multiple of the ball radius, in thousandths, that the arithmetic
/// is proved for.
pub const MULTIPLE_LIMIT: i64 = 32_000;

/// Largest steering gain, wall position and fall time that the arithmetic is
/// proved for.
pub const SETTING_LIMIT: i64 = 1_000_000;

/// Largest wall tilt: half a turn, in millionths of a degree.
pub const TILT_LIMIT: i64 = 180_000_000;

/// Tunable constants. Lengths are in arena units, multiples of the ball
/// radius and gains are in thousandths, angles in millionths of a degree,
/// times in thousandths of a second.
#[derive(Clone, Copy, Debug, PartialEq, Eq, Structural)]
pub struct Tuning {
    /// Radius of the ball.
    pub ball_radius: i64,
    /// Steering deflection per degree of heading error, in thousandths.
    pub steer_gain: i64,
    /// Pitch or roll beyond which a car with wheel contact counts as tilted
    /// against a wall.
    pub wall_tilt: i64,
    /// Distance of the side walls from the centre line.
    pub wall_x: i64,
    /// A falling ball that lands sooner than this is worth a jump.
    pub header_fall_time: i64,
    /// Distance of the contact point from the ball's centre on offense, as
    /// a multiple of the ball radius.
    pub offense_offset: i64,
    /// The same on defense.
    pub defense_offset: i64,
    /// Sideways clearance below which a target behind the ball is pushed
    /// outward, as a multiple of the ball radius.
    pub clearance: i64,
    /// How far such a target is pushed, as a multiple of the ball radius.
    pub push: i64,
    /// Ground distance to the target beyond which boost is spent, as a
    /// multiple of the ball radius.
    pub long_approach: i64,
    /// The squared cosine, in millionths, of the largest angle between the
    /// car's line to the ball and the ball's line to the goal at which a
    /// shot counts as lined up.
    pub alignment: i64,
}

impl Tuning {
    /// Every setting lies in the range that the arithmetic is proved for.
    pub open spec fn wf(&self) -> bool {
        &&& 1 <= self.ball_radius <= RADIUS_LIMIT
        &&& 0 <= self.steer_gain <= SETTING_LIMIT
        &&& 0 <= self.wall_tilt <= TILT_LIMIT
        &&& 0 <= self.wall_x <= SETTING_LIMIT
        &&& 0 <= self.header_fall_time <= SETTING_LIMIT
        &&& 0 <= self.offense_offset <= MULTIPLE_LIMIT
        &&& 0 <= self.defense_offset <= MULTIPLE_LIMIT
        &&& 0 <= self.clearance <= MULTIPLE_LIMIT
        &&& 0 <= self.push <= MULTIPLE_LIMIT
        &&& 0 <= self.long_approach <= MULTIPLE_LIMIT
        &&& 0 <= self.alignment <= SETTING_LIMIT
    }

    /// The settings the agent was tuned with.
    pub open spec fn standard() -> Tuning {
        Tuning {
            ball_radius: 90,
            steer_gain: 500,
            wall_tilt: 70_000_000,
            wall_x: 4096,
            header_fall_time: 800,
            offense_offset: 1100,
            defense_offset: 900,
            clearance: 2000,
            push: 1500,
            long_approach: 20_000,
            alignment: 933_013,
        }
    }

    /// Whether every setting lies in the range that the arithmetic is proved
    /// for.
    pub fn is_valid(&self) -> (r: bool)
        ensures
            r == self.wf(),
    {
        1 <= self.ball_radius && self.ball_radius <= RADIUS_LIMIT && 0 <= self.steer_gain
            && self.steer_gain <= SETTING_LIMIT && 0 <= self.wall_tilt && self.wall_tilt
            <= TILT_LIMIT && 0 <= self.wall_x && self.wall_x <= SETTING_LIMIT && 0
            <= self.header_fall_time && self.header_fall_time <= SETTING_LIMIT && 0
            <= self.offense_offset && self.offense_offset <= MULTIPLE_LIMIT && 0
            <= self.defense_offset && self.defense_offset <= MULTIPLE_LIMIT && 0
            <= self.clearance && self.clearance <= MULTIPLE_LIMIT && 0 <= self.push
            && self.push <= MULTIPLE_LIMIT && 0 <= self.long_approach && self.long_approach
            <= MULTIPLE_LIMIT && 0 <= self.alignment && self.alignment <= SETTING_LIMIT
    }
}

impl Default for Tuning {
    /// A ball of radius 90, half a deflection per degree of heading error, a
    /// wall tilt of 70 degrees, walls at 4096, a fall time of 0.8 seconds,
    /// contact at 1.1 radii on offense and 0.9 on defense, a push of 1.5
    /// radii below a clearance of 2, boost beyond 20 radii, and shots lined
    /// up within 15 degrees.
    fn default() -> (r: Tuning)
        ensures
            r == Tuning::standard(),
            r.wf(),
    {
        Tuning {
            ball_radius: 90,
            steer_gain: 500,
            wall_tilt: 70_000_000,
            wall_x: 4096,
            header_fall_time: 800,
            offense_offset: 1100,
            defense_offset: 900,
            clearance: 2000,
            push: 1500,
            long_approach: 20_000,
            alignment: 933_013,
        }
    }
}

/// The standard alignment is the squared cosine of fifteen degrees, rounded
/// up to a millionth. That squared cosine is a quarter of two plus the square
/// root of three, so four times it, less two, squares to three.
pub proof fn law_standard_alignment_is_fifteen_degrees()
    ensures
        ({
            let above = 4 * Tuning::standard().alignment - 2_000_000;
            let below = 4 * (Tuning::standard().alignment - 1) - 2_000_000;
            0 < below && below * below < 3_000_000_000_000 && 3_000_000_000_000 < above * above
        }),
{
    assert(1_732_048int * 1_732_048 < 3_000_000_000_000 && 3_000_000_000_000 < 1_732_052int
        * 1_732_052) by (nonlinear_arith);
}

} // verus!
