use ball_tactics::angle::Angle;
use ball_tactics::control::{
    choose_maneuver, decide_boost, drive, drops_on_car, is_lined_up, level, map_controls,
    ControlOutput, Maneuver, FULL,
};
use ball_tactics::role::Role;
use ball_tactics::snapshot::{Ball, Car};
use ball_tactics::tuning::Tuning;
use ball_tactics::vector::Vec3;

const THEIRS: Vec3 = Vec3 { x: 0, y: 5120, z: 93 };

fn degrees(d: i32) -> Angle {
    Angle::from_degrees(1_000_000 * d)
}

fn car_at(x: i64, y: i64, z: i64) -> Car {
    Car {
        position: Vec3::new(x, y, z),
        velocity: Vec3::new(0, 0, 0),
        pitch: degrees(0),
        yaw: degrees(0),
        roll: degrees(0),
        wheel_contact: true,
        boost_fuel: 0,
        team: 0,
    }
}

fn ball_at(x: i64, y: i64, z: i64, vz: i64) -> Ball {
    Ball { position: Vec3::new(x, y, z), velocity: Vec3::new(0, 0, vz) }
}

#[test]
fn heading_error_of_thirty_degrees_steers_fully_forward() {
    assert_eq!(drive(degrees(30), &Tuning::default()), (FULL, FULL));
}

#[test]
fn heading_error_of_one_degree_steers_by_half() {
    assert_eq!(drive(degrees(1), &Tuning::default()), (FULL, 500_000));
    assert_eq!(drive(degrees(-1), &Tuning::default()), (FULL, -500_000));
    assert_eq!(drive(Angle::from_degrees(3), &Tuning::default()), (FULL, 1));
    assert_eq!(drive(Angle::from_degrees(1_999_999), &Tuning::default()), (FULL, 999_999));
    assert_eq!(drive(degrees(2), &Tuning::default()), (FULL, FULL));
    assert_eq!(drive(degrees(0), &Tuning::default()), (FULL, 0));
}

#[test]
fn heading_error_of_a_hundred_and_seventy_degrees_backs_up() {
    assert_eq!(drive(degrees(170), &Tuning::default()), (-FULL, -FULL));
    assert_eq!(drive(degrees(-170), &Tuning::default()), (-FULL, FULL));
}

#[test]
fn a_quarter_turn_is_already_behind() {
    assert_eq!(drive(Angle::from_degrees(89_999_999), &Tuning::default()), (FULL, FULL));
    assert_eq!(drive(degrees(90), &Tuning::default()), (-FULL, -FULL));
    assert_eq!(drive(degrees(-90), &Tuning::default()), (-FULL, FULL));
    assert_eq!(drive(degrees(-180), &Tuning::default()), (-FULL, FULL));
}

#[test]
fn steering_follows_the_gain() {
    let mut tuning = Tuning::default();
    tuning.steer_gain = 10;
    assert_eq!(drive(degrees(30), &tuning), (FULL, 300_000));
    assert_eq!(drive(degrees(170), &tuning), (-FULL, -FULL));
    assert_eq!(drive(degrees(120), &tuning), (-FULL, -FULL));
    tuning.steer_gain = 1;
    assert_eq!(drive(degrees(120), &tuning), (-FULL, -120_000));
    tuning.steer_gain = 0;
    assert_eq!(drive(degrees(30), &tuning), (FULL, 0));
}

#[test]
fn levelling_works_against_the_tilt() {
    assert_eq!(level(degrees(40)), -400_000);
    assert_eq!(level(degrees(-40)), 400_000);
    assert_eq!(level(degrees(150)), -FULL);
    assert_eq!(level(degrees(-180)), FULL);
    assert_eq!(level(Angle::from_degrees(99)), 0);
    assert_eq!(level(Angle::from_degrees(-199)), 1);
}

#[test]
fn a_car_on_the_wall_jumps_off() {
    let tuning = Tuning::default();
    let b = ball_at(0, 0, 93, 0);
    let t = Vec3::new(0, -99, 93);
    let mut car = car_at(4000, 0, 500);
    car.roll = degrees(80);
    assert_eq!(choose_maneuver(&car, &b, &t, &tuning), Maneuver::LeaveWall);
    car.roll = degrees(0);
    car.pitch = degrees(-71);
    assert_eq!(choose_maneuver(&car, &b, &t, &tuning), Maneuver::LeaveWall);
    car.position.x = -4000;
    assert_eq!(choose_maneuver(&car, &b, &t, &tuning), Maneuver::LeaveWall);
}

#[test]
fn a_car_is_not_on_the_wall_without_each_of_the_conditions() {
    let tuning = Tuning::default();
    let b = ball_at(0, 0, 93, 0);
    let t = Vec3::new(0, -99, 93);
    let mut on_wall = car_at(4000, 0, 500);
    on_wall.roll = degrees(80);
    let mut low = on_wall;
    low.position.z = 180;
    assert_eq!(choose_maneuver(&low, &b, &t, &tuning), Maneuver::Hold);
    let mut upright = on_wall;
    upright.roll = degrees(70);
    assert_eq!(choose_maneuver(&upright, &b, &t, &tuning), Maneuver::Hold);
    let mut inward = on_wall;
    inward.position.x = 3916;
    assert_eq!(choose_maneuver(&inward, &b, &t, &tuning), Maneuver::Hold);
    inward.position.x = 3917;
    assert_eq!(choose_maneuver(&inward, &b, &t, &tuning), Maneuver::LeaveWall);
    let mut loose = on_wall;
    loose.wheel_contact = false;
    assert_eq!(choose_maneuver(&loose, &b, &t, &tuning), Maneuver::Hold);
}

#[test]
fn a_falling_car_levels_out() {
    let tuning = Tuning::default();
    let b = ball_at(0, 0, 93, 0);
    let t = Vec3::new(0, -99, 93);
    let mut car = car_at(0, -2000, 500);
    car.wheel_contact = false;
    car.velocity = Vec3::new(0, 0, -1);
    assert_eq!(choose_maneuver(&car, &b, &t, &tuning), Maneuver::Level);
    car.velocity = Vec3::new(0, 0, 0);
    assert_eq!(choose_maneuver(&car, &b, &t, &tuning), Maneuver::Hold);
    car.velocity = Vec3::new(0, 0, -1);
    car.position.z = 180;
    assert_eq!(choose_maneuver(&car, &b, &t, &tuning), Maneuver::Hold);
    car.position.z = 181;
    assert_eq!(choose_maneuver(&car, &b, &t, &tuning), Maneuver::Level);
}

#[test]
fn a_ball_that_drops_on_the_car_is_headed() {
    let tuning = Tuning::default();
    let car = car_at(0, 0, 17);
    let t = Vec3::new(50, -70, 93);
    assert_eq!(choose_maneuver(&car, &ball_at(0, 30, 400, -600), &t, &tuning), Maneuver::Header);
    assert_eq!(choose_maneuver(&car, &ball_at(0, 30, 800, -1001), &t, &tuning), Maneuver::Header);
    assert_eq!(choose_maneuver(&car, &ball_at(0, 30, 800, -1000), &t, &tuning), Maneuver::Hold);
    assert_eq!(choose_maneuver(&car, &ball_at(0, 30, 400, 0), &t, &tuning), Maneuver::Hold);
    assert_eq!(choose_maneuver(&car, &ball_at(0, 30, 400, 600), &t, &tuning), Maneuver::Hold);
    assert_eq!(choose_maneuver(&car, &ball_at(0, 30, 107, -600), &t, &tuning), Maneuver::Hold);
    assert_eq!(choose_maneuver(&car, &ball_at(0, 30, 108, -600), &t, &tuning), Maneuver::Header);
    let far = Vec3::new(54, -72, 93);
    assert_eq!(choose_maneuver(&car, &ball_at(0, 30, 400, -600), &far, &tuning), Maneuver::Hold);
    let near = Vec3::new(53, -72, 9000);
    assert_eq!(choose_maneuver(&car, &ball_at(0, 30, 400, -600), &near, &tuning), Maneuver::Header);
}

#[test]
fn a_dropping_ball_is_told_apart_from_one_that_lands_soon() {
    let tuning = Tuning::default();
    let car = car_at(0, 0, 17);
    let t = Vec3::new(50, -70, 93);
    assert!(drops_on_car(&car, &ball_at(0, 30, 800, -1000), &t, &tuning));
    assert_eq!(choose_maneuver(&car, &ball_at(0, 30, 800, -1000), &t, &tuning), Maneuver::Hold);
    assert!(drops_on_car(&car, &ball_at(0, 30, 400, -600), &t, &tuning));
    assert!(!drops_on_car(&car, &ball_at(0, 30, 400, 0), &t, &tuning));
    assert!(!drops_on_car(&car, &ball_at(0, 30, 107, -600), &t, &tuning));
    assert!(!drops_on_car(&car, &ball_at(0, 30, 400, -600), &Vec3::new(54, -72, 93), &tuning));
}

#[test]
fn a_heading_error_is_read_in_degrees() {
    let tuning = Tuning::default();
    assert_eq!(drive(Angle::from_radians(523_598_776), &tuning), (FULL, FULL));
    assert_eq!(drive(Angle::from_radians(17_453_292), &tuning), (FULL, 499_999));
    assert_eq!(drive(Angle::from_radians(17_453_293), &tuning), (FULL, 500_000));
    assert_eq!(drive(Angle::from_radians(1_570_796_326), &tuning), (FULL, FULL));
    assert_eq!(drive(Angle::from_radians(1_570_796_327), &tuning), (-FULL, -FULL));
    assert_eq!(drive(Angle::from_radians(-1_570_796_326), &tuning), (FULL, -FULL));
    assert_eq!(drive(Angle::from_radians(-3_141_592_654), &tuning), (-FULL, FULL));
}

#[test]
fn a_shot_is_lined_up_within_fifteen_degrees() {
    let b = Vec3::new(0, 0, 0);
    let goal = Vec3::new(0, 1000, 0);
    let a = Tuning::default().alignment;
    assert!(is_lined_up(&Vec3::new(0, -1000, 0), &b, &goal, a));
    assert!(is_lined_up(&Vec3::new(-267, -1000, 0), &b, &goal, a));
    assert!(is_lined_up(&Vec3::new(267, -1000, 0), &b, &goal, a));
    assert!(!is_lined_up(&Vec3::new(-268, -1000, 0), &b, &goal, a));
    assert!(!is_lined_up(&Vec3::new(0, 1000, 0), &b, &goal, a));
    assert!(!is_lined_up(&Vec3::new(0, 0, 0), &b, &goal, a));
    assert!(!is_lined_up(&Vec3::new(0, -1000, 0), &b, &b, a));
    assert!(!is_lined_up(&Vec3::new(-1000, 0, 0), &b, &goal, 0));
    assert!(is_lined_up(&Vec3::new(-1000, -1, 0), &b, &goal, 0));
}

#[test]
fn boost_is_spent_in_the_kickoff_while_there_is_fuel() {
    let tuning = Tuning::default();
    let b = Vec3::new(-500, -2000, 93);
    let t = Vec3::new(-500, -2081, 93);
    let mut car = car_at(0, -3000, 17);
    assert!(!decide_boost(Role::Defense, &car, &b, &t, &THEIRS, true, &tuning));
    car.boost_fuel = 1;
    assert!(decide_boost(Role::Defense, &car, &b, &t, &THEIRS, true, &tuning));
    assert!(!decide_boost(Role::Defense, &car, &b, &t, &THEIRS, false, &tuning));
}

#[test]
fn boost_is_spent_on_a_long_approach_along_the_ground() {
    let tuning = Tuning::default();
    let b = Vec3::new(-500, -2000, 93);
    let mut car = car_at(0, -3000, 17);
    assert!(!decide_boost(Role::Defense, &car, &b, &Vec3::new(0, -1200, 93), &THEIRS, false, &tuning));
    assert!(decide_boost(Role::Defense, &car, &b, &Vec3::new(0, -1199, 93), &THEIRS, false, &tuning));
    assert!(decide_boost(Role::Defense, &car, &b, &Vec3::new(0, -1199, 9000), &THEIRS, false, &tuning));
    car.position.z = 90;
    assert!(!decide_boost(Role::Defense, &car, &b, &Vec3::new(0, -1199, 93), &THEIRS, false, &tuning));
    car.position.z = 89;
    assert!(decide_boost(Role::Defense, &car, &b, &Vec3::new(0, -1199, 93), &THEIRS, false, &tuning));
}

#[test]
fn boost_is_spent_on_offense_when_the_shot_is_lined_up() {
    let tuning = Tuning::default();
    let b = Vec3::new(0, -2000, 93);
    let t = Vec3::new(0, -2099, 93);
    let car = car_at(0, -3000, 93);
    assert!(decide_boost(Role::Offense, &car, &b, &t, &THEIRS, false, &tuning));
    assert!(!decide_boost(Role::Defense, &car, &b, &t, &THEIRS, false, &tuning));
    let aside = car_at(-1000, -2000, 93);
    assert!(!decide_boost(Role::Offense, &aside, &b, &t, &THEIRS, false, &tuning));
}

#[test]
fn neutral_commands_do_nothing() {
    let n = ControlOutput::neutral();
    assert_eq!(
        n,
        ControlOutput { throttle: 0, steer: 0, pitch: 0, yaw: 0, roll: 0, jump: false, boost: false }
    );
}

#[test]
fn commands_on_the_ground_leave_the_attitude_alone() {
    let tuning = Tuning::default();
    let mut car = car_at(0, -3000, 17);
    car.yaw = degrees(90);
    car.roll = degrees(40);
    let out = map_controls(
        Role::Defense,
        &car,
        &ball_at(-500, -2000, 93, 0),
        &Vec3::new(-500, -2081, 93),
        &THEIRS,
        false,
        degrees(91),
        &tuning,
    );
    assert_eq!(
        out,
        ControlOutput { throttle: FULL, steer: 500_000, pitch: 0, yaw: 0, roll: 0, jump: false, boost: false }
    );
}

#[test]
fn commands_in_the_air_level_the_car_and_keep_aiming() {
    let tuning = Tuning::default();
    let mut car = car_at(0, -3000, 500);
    car.wheel_contact = false;
    car.velocity = Vec3::new(0, 0, -300);
    car.yaw = degrees(90);
    car.roll = degrees(40);
    car.pitch = degrees(-10);
    let out = map_controls(
        Role::Defense,
        &car,
        &ball_at(-500, -2000, 93, 0),
        &Vec3::new(-500, -2081, 93),
        &THEIRS,
        false,
        Angle::from_degrees(89_400_000),
        &tuning,
    );
    assert_eq!(
        out,
        ControlOutput {
            throttle: FULL,
            steer: -299_999,
            pitch: 100_000,
            yaw: -299_999,
            roll: -400_000,
            jump: false,
            boost: false,
        }
    );
}

#[test]
fn commands_on_the_wall_jump_without_levelling() {
    let tuning = Tuning::default();
    let mut car = car_at(4000, 0, 500);
    car.roll = degrees(80);
    car.yaw = degrees(90);
    let out = map_controls(
        Role::Defense,
        &car,
        &ball_at(3900, 1000, 93, 0),
        &Vec3::new(3900, 919, 93),
        &THEIRS,
        false,
        degrees(-100),
        &tuning,
    );
    assert_eq!(
        out,
        ControlOutput { throttle: -FULL, steer: -FULL, pitch: 0, yaw: 0, roll: 0, jump: true, boost: false }
    );
}
