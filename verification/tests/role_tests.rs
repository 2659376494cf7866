use ball_tactics::role::{assess_role, squared_distance, Role, RoleAssessment};
use ball_tactics::vector::Vec3;

const OWN: Vec3 = Vec3 { x: 0, y: -5120, z: 0 };
const THEIRS: Vec3 = Vec3 { x: 0, y: 5120, z: 0 };

#[test]
fn squared_distance_is_exact() {
    assert_eq!(squared_distance(&Vec3::new(1, 2, 3), &Vec3::new(4, -2, 3)), 25);
    assert_eq!(squared_distance(&Vec3::new(16_384, 16_384, 16_384), &Vec3::new(-16_384, -16_384, -16_384)), 3_221_225_472);
    assert_eq!(squared_distance(&OWN, &OWN), 0);
}

#[test]
fn offense_when_the_ball_is_nearer_their_goal() {
    let r = assess_role(&Vec3::new(0, 0, 17), &Vec3::new(0, 4000, 17), &Vec3::new(0, 1, 93), &OWN, &THEIRS);
    assert_eq!(r, RoleAssessment { role: Role::Offense, breakaway: false });
}

#[test]
fn defense_when_the_ball_is_nearer_our_goal() {
    let r = assess_role(&Vec3::new(0, -3000, 17), &Vec3::new(0, 4000, 17), &Vec3::new(0, -2000, 93), &OWN, &THEIRS);
    assert_eq!(r, RoleAssessment { role: Role::Defense, breakaway: false });
}

#[test]
fn defense_when_the_ball_is_half_way() {
    let r = assess_role(&Vec3::new(0, -3000, 17), &Vec3::new(0, 4000, 17), &Vec3::new(0, 0, 0), &OWN, &THEIRS);
    assert_eq!(r, RoleAssessment { role: Role::Defense, breakaway: false });
}

#[test]
fn breakaway_makes_offense_even_near_our_goal() {
    let r = assess_role(&Vec3::new(0, -3000, 17), &Vec3::new(0, -4000, 17), &Vec3::new(0, -2000, 93), &OWN, &THEIRS);
    assert_eq!(r, RoleAssessment { role: Role::Offense, breakaway: true });
}

#[test]
fn no_breakaway_when_the_opponent_is_nearer_their_goal() {
    let balls = [Vec3::new(0, -2000, 93), Vec3::new(0, 5000, 93), Vec3::new(3000, 0, 93)];
    for ball in balls.iter() {
        let r = assess_role(&Vec3::new(0, -3000, 17), &Vec3::new(0, -2999, 17), ball, &OWN, &THEIRS);
        assert!(!r.breakaway);
    }
}

#[test]
fn no_breakaway_at_equal_distances() {
    let ball = Vec3::new(0, -2000, 93);
    let level = assess_role(&Vec3::new(100, -3000, 17), &Vec3::new(-100, -3000, 17), &ball, &OWN, &THEIRS);
    assert_eq!(level, RoleAssessment { role: Role::Defense, breakaway: false });
    let ball_with_car = assess_role(&Vec3::new(0, -2000, 93), &Vec3::new(0, -4000, 17), &ball, &OWN, &THEIRS);
    assert_eq!(ball_with_car, RoleAssessment { role: Role::Defense, breakaway: false });
}
