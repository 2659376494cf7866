use ball_tactics::planner::{
    approach_direction, contact_point, go_around, is_blocked, plan_target, wanted_direction,
};
use ball_tactics::role::Role;
use ball_tactics::snapshot::Ball;
use ball_tactics::tuning::Tuning;
use ball_tactics::vector::{reject, Vec3};

const OWN: Vec3 = Vec3 { x: 0, y: -5120, z: 93 };
const THEIRS: Vec3 = Vec3 { x: 0, y: 5120, z: 93 };

fn ball(position: Vec3, velocity: Vec3) -> Ball {
    Ball { position, velocity }
}

fn still(x: i64, y: i64, z: i64) -> Ball {
    ball(Vec3::new(x, y, z), Vec3::new(0, 0, 0))
}

#[test]
fn offense_sends_a_resting_ball_at_their_goal() {
    let dir = approach_direction(Role::Offense, &still(0, 0, 93), &OWN, &THEIRS);
    assert_eq!(dir, Some(Vec3::new(0, 4096, 0)));
}

#[test]
fn offense_turns_a_moving_ball_toward_their_goal() {
    let rolling = ball(Vec3::new(0, 0, 93), Vec3::new(1000, 0, 0));
    let dir = approach_direction(Role::Offense, &rolling, &OWN, &THEIRS);
    assert_eq!(dir, Some(Vec3::new(-2897, 2897, 0)));
}

#[test]
fn offense_keeps_the_way_to_goal_for_a_ball_already_on_it() {
    let rolling = ball(Vec3::new(0, 0, 93), Vec3::new(0, 700, 0));
    let dir = approach_direction(Role::Offense, &rolling, &OWN, &THEIRS);
    assert_eq!(dir, Some(Vec3::new(0, 4096, 0)));
}

#[test]
fn offense_has_no_direction_for_a_ball_in_their_goal() {
    let scored = ball(THEIRS, Vec3::new(0, 700, 0));
    assert_eq!(approach_direction(Role::Offense, &scored, &OWN, &THEIRS), None);
    assert_eq!(plan_target(Role::Offense, &scored, &Vec3::new(0, 0, 17), &OWN, &THEIRS, &Tuning::default()), None);
}

#[test]
fn defense_clears_along_the_line_of_the_goals() {
    let dir = approach_direction(Role::Defense, &still(0, -2000, 93), &OWN, &THEIRS);
    assert_eq!(dir, Some(Vec3::new(0, 4096, 0)));
}

#[test]
fn defense_blends_by_the_squared_distances() {
    let dir = approach_direction(Role::Defense, &still(1000, -2000, 93), &OWN, &THEIRS);
    assert_eq!(dir, Some(Vec3::new(696, 4037, 0)));
}

#[test]
fn defense_ignores_the_ball_velocity() {
    let rolling = ball(Vec3::new(1000, -2000, 93), Vec3::new(300, 0, 0));
    let dir = approach_direction(Role::Defense, &rolling, &OWN, &THEIRS);
    assert_eq!(dir, Some(Vec3::new(696, 4037, 0)));
}

#[test]
fn defense_has_no_direction_at_a_goal_or_between_equal_goals() {
    assert_eq!(approach_direction(Role::Defense, &still(0, -5120, 93), &OWN, &THEIRS), None);
    assert_eq!(approach_direction(Role::Defense, &still(0, 5120, 93), &OWN, &THEIRS), None);
    assert_eq!(approach_direction(Role::Defense, &still(0, 0, 93), &OWN, &OWN), None);
}

#[test]
fn contact_point_lies_behind_the_ball() {
    let b = Vec3::new(0, 0, 93);
    assert_eq!(contact_point(&b, &Vec3::new(0, 4096, 0), 90, 1100), Vec3::new(0, -99, 93));
    assert_eq!(contact_point(&b, &Vec3::new(0, 4096, 0), 90, 900), Vec3::new(0, -81, 93));
    assert_eq!(contact_point(&b, &Vec3::new(-2896, 2896, 0), 90, 1100), Vec3::new(70, -70, 93));
    assert_eq!(contact_point(&b, &Vec3::new(1, 0, -1), 90, 1100), Vec3::new(-1, 0, 94));
    assert_eq!(contact_point(&b, &Vec3::new(0, 0, 0), 90, 1100), b);
}

#[test]
fn contact_point_lies_no_nearer_than_the_offset() {
    let b = Vec3::new(-300, 1200, 93);
    let ways = [
        Vec3::new(1, 0, 0),
        Vec3::new(3, -4, 12),
        Vec3::new(-5120, 7000, 93),
        Vec3::new(1, 1, 1),
        Vec3::new(-16_384, 16_383, -1),
    ];
    for way in ways.iter() {
        let direction = way.normalize_checked().unwrap();
        for (radius, multiple) in [(90, 1100), (90, 900), (1024, 32_000), (1, 0), (7, 333)] {
            let point = contact_point(&b, &direction, radius, multiple);
            let back = b.minus(&point);
            let asked = (radius * multiple) as i128;
            assert!(1_000_000 * back.norm_sq() >= asked * asked);
            assert!(back.is_within((radius * multiple + 999) / 1000));
            let length = (back.norm_sq() as f64).sqrt();
            assert!(length < asked as f64 / 1000.0 * (1.0 + 4.0 / 4096.0) + 2.0, "{}", length);
            assert!(back.dot(way) >= 0);
        }
    }
}

#[test]
fn a_target_short_of_the_ball_is_kept() {
    let car = Vec3::new(0, -1000, 93);
    let b = Vec3::new(0, 0, 93);
    let t = Vec3::new(10, -99, 93);
    assert_eq!(go_around(&car, &b, &t, &Tuning::default()), t);
}

#[test]
fn a_target_close_behind_the_ball_is_pushed_sideways() {
    let car = Vec3::new(0, -1000, 93);
    let b = Vec3::new(0, 0, 93);
    let tuning = Tuning::default();
    assert_eq!(go_around(&car, &b, &Vec3::new(10, 99, 93), &tuning), Vec3::new(145, 99, 93));
    assert_eq!(go_around(&car, &b, &Vec3::new(-10, 99, 93), &tuning), Vec3::new(-145, 99, 93));
    assert_eq!(go_around(&car, &b, &Vec3::new(179, 50, 93), &tuning), Vec3::new(314, 50, 93));
}

fn clearance(car: &Vec3, b: &Vec3, target: &Vec3) -> f64 {
    let line = b.minus(car);
    let across = reject(&target.minus(b), &line);
    (across.norm_sq() as f64).sqrt() / line.norm_sq() as f64
}

#[test]
fn a_pushed_target_clears_the_line_by_the_push() {
    let car = Vec3::new(-700, -700, 17);
    let b = Vec3::new(0, 0, 93);
    let tuning = Tuning::default();
    assert!(clearance(&car, &b, &Vec3::new(60, 80, 93)) < 90.0);
    let moved = go_around(&car, &b, &Vec3::new(60, 80, 93), &tuning);
    assert_eq!(moved, Vec3::new(-21, 168, 29));
    assert!(clearance(&car, &b, &moved) >= 1.5 * 90.0);
}

#[test]
fn a_pushed_target_clears_the_line_where_rounding_matters() {
    let tuning = Tuning::default();
    let car = Vec3::new(1, 3000, 93);
    let b = Vec3::new(0, 1000, 93);
    let moved = go_around(&car, &b, &Vec3::new(0, 901, 93), &tuning);
    assert_eq!(moved, Vec3::new(135, 900, 93));
    assert!(clearance(&car, &b, &moved) >= 135.0);
    let car = Vec3::new(-1230, 2612, 17);
    let b = Vec3::new(112, 293, 93);
    let moved = go_around(&car, &b, &Vec3::new(164, 203, 96), &tuning);
    assert_eq!(moved, Vec3::new(68, 150, 175));
    assert!(clearance(&car, &b, &moved) >= 135.0);
    let line = b.minus(&car);
    let across = reject(&moved.minus(&b), &line);
    let span = 90 * 1500 * line.norm_sq();
    assert!(1_000_000 * across.norm_sq() >= span * span);
}

#[test]
fn a_target_with_clearance_is_kept() {
    let car = Vec3::new(0, -1000, 93);
    let b = Vec3::new(0, 0, 93);
    let tuning = Tuning::default();
    assert_eq!(go_around(&car, &b, &Vec3::new(200, 99, 93), &tuning), Vec3::new(200, 99, 93));
    assert_eq!(go_around(&car, &b, &Vec3::new(180, 50, 93), &tuning), Vec3::new(180, 50, 93));
}

#[test]
fn a_target_on_the_line_has_no_side_and_is_kept() {
    let car = Vec3::new(0, -1000, 93);
    let b = Vec3::new(0, 0, 93);
    assert_eq!(go_around(&car, &b, &Vec3::new(0, 99, 93), &Tuning::default()), Vec3::new(0, 99, 93));
    assert_eq!(go_around(&b, &b, &Vec3::new(0, 99, 93), &Tuning::default()), Vec3::new(0, 99, 93));
}

#[test]
fn a_car_that_passes_under_the_ball_goes_straight() {
    let car = Vec3::new(0, -100, 17);
    let b = Vec3::new(0, 0, 2000);
    let t = Vec3::new(0, 99, 2000);
    assert_eq!(go_around(&car, &b, &t, &Tuning::default()), t);
}

#[test]
fn plan_target_on_offense() {
    let tuning = Tuning::default();
    let car = Vec3::new(0, -2000, 17);
    assert_eq!(plan_target(Role::Offense, &still(0, 0, 93), &car, &OWN, &THEIRS, &tuning), Some(Vec3::new(0, -99, 93)));
    let rolling = ball(Vec3::new(0, 0, 93), Vec3::new(1000, 0, 0));
    let beside = Vec3::new(500, -2000, 17);
    assert_eq!(plan_target(Role::Offense, &rolling, &beside, &OWN, &THEIRS, &tuning), Some(Vec3::new(71, -71, 93)));
}

#[test]
fn plan_target_on_defense() {
    let tuning = Tuning::default();
    let car = Vec3::new(0, -3000, 17);
    assert_eq!(plan_target(Role::Defense, &still(0, -2000, 93), &car, &OWN, &THEIRS, &tuning), Some(Vec3::new(0, -2081, 93)));
    let rolling = ball(Vec3::new(1000, -2000, 93), Vec3::new(300, 0, 0));
    let beside = Vec3::new(900, -3000, 17);
    assert_eq!(plan_target(Role::Defense, &rolling, &beside, &OWN, &THEIRS, &tuning), Some(Vec3::new(986, -2080, 93)));
}

#[test]
fn plan_target_goes_around_from_the_wrong_side() {
    let tuning = Tuning::default();
    let car = Vec3::new(40, 2000, 17);
    let b = Vec3::new(0, 0, 93);
    let planned = plan_target(Role::Offense, &still(0, 0, 93), &car, &OWN, &THEIRS, &tuning).unwrap();
    assert_eq!(planned, Vec3::new(63, -105, -27));
    assert!(clearance(&car, &b, &planned) >= 1.5 * 90.0);
}

#[test]
fn blocked_is_told_apart() {
    let car = Vec3::new(0, -1000, 93);
    let b = Vec3::new(0, 0, 93);
    assert!(is_blocked(&car, &b, &Vec3::new(10, 99, 93)));
    assert!(!is_blocked(&car, &b, &Vec3::new(10, -99, 93)));
    assert!(!is_blocked(&Vec3::new(0, -100, 17), &Vec3::new(0, 0, 2000), &Vec3::new(0, 99, 2000)));
}

#[test]
fn wanted_direction_leaves_the_ball_motion_out() {
    let rolling = Vec3::new(0, 0, 93);
    assert_eq!(wanted_direction(Role::Offense, &rolling, &OWN, &THEIRS), Some(Vec3::new(0, 4096, 0)));
    assert_eq!(wanted_direction(Role::Offense, &THEIRS, &OWN, &THEIRS), None);
    assert_eq!(
        wanted_direction(Role::Defense, &Vec3::new(1000, -2000, 93), &OWN, &THEIRS),
        Some(Vec3::new(696, 4037, 0))
    );
}
