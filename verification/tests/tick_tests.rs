use ball_tactics::agent::{begin_tick, end_tick, Plan, Unavailable};
use ball_tactics::angle::Angle;
use ball_tactics::control::ControlOutput;
use ball_tactics::role::{Role, RoleAssessment};
use ball_tactics::snapshot::{Ball, Car, Goal, Snapshot};
use ball_tactics::state::PersistentAgentState;
use ball_tactics::tuning::Tuning;
use ball_tactics::vector::Vec3;

fn goals() -> Vec<Goal> {
    vec![
        Goal { team: 0, position: Vec3::new(0, -5120, 93) },
        Goal { team: 1, position: Vec3::new(0, 5120, 93) },
    ]
}

fn car_at(x: i64, y: i64, z: i64) -> Car {
    Car {
        position: Vec3::new(x, y, z),
        velocity: Vec3::new(0, 0, 0),
        pitch: Angle::from_degrees(0),
        yaw: Angle::from_degrees(90_000_000),
        roll: Angle::from_degrees(0),
        wheel_contact: true,
        boost_fuel: 33,
        team: 0,
    }
}

fn snapshot(car: Car, ball: Vec3, opponent: Vec3) -> Snapshot {
    Snapshot {
        ball: Some(Ball { position: ball, velocity: Vec3::new(0, 0, 0) }),
        car,
        opponent,
        goals: Some(goals()),
    }
}

fn heading(way: Vec3) -> Angle {
    let radians = (way.y as f64).atan2(way.x as f64);
    Angle::from_radians((radians * 1_000_000_000.0).round() as i64)
}

fn tick(state: &mut PersistentAgentState, snap: &Snapshot) -> Result<(Plan, ControlOutput), Unavailable> {
    let tuning = Tuning::default();
    assert!(snap.is_valid() && tuning.is_valid());
    let plan = begin_tick(state, snap, &tuning)?;
    assert!(plan.is_valid());
    let yaw = heading(plan.way_from(&snap.car));
    Ok((plan, end_tick(state, &snap.car, &plan, yaw, &tuning)))
}

#[test]
fn ball_straight_ahead_on_offense() {
    let mut state = PersistentAgentState::new();
    let snap = snapshot(car_at(0, -2000, 17), Vec3::new(0, 100, 93), Vec3::new(3000, -4000, 17));
    let (plan, out) = tick(&mut state, &snap).unwrap();
    assert_eq!(plan.assessment.role, Role::Offense);
    assert_eq!(plan.target, Vec3::new(0, 1, 93));
    assert_eq!(out.throttle, 1_000_000);
    assert!(out.steer.abs() < 100_000);
    assert_eq!(out.steer, 0);
    assert!(!out.jump);
    assert_eq!((out.pitch, out.yaw, out.roll), (0, 0, 0));
    assert!(out.boost);
}

#[test]
fn falling_car_rolled_forty_degrees() {
    let mut state = PersistentAgentState::new();
    let mut car = car_at(0, -2000, 500);
    car.wheel_contact = false;
    car.velocity = Vec3::new(0, 0, -300);
    car.roll = Angle::from_degrees(40_000_000);
    let snap = snapshot(car, Vec3::new(0, 100, 93), Vec3::new(3000, -4000, 17));
    let (_, out) = tick(&mut state, &snap).unwrap();
    assert_eq!(out.roll, -400_000);
    assert_eq!(out.pitch, 0);
    assert_eq!(out.yaw, out.steer);
    assert!(!out.jump);
}

#[test]
fn kickoff_with_an_empty_tank() {
    let mut state = PersistentAgentState::new();
    assert!(state.kickoff_active);
    let mut car = car_at(0, -3000, 17);
    car.boost_fuel = 0;
    let snap = snapshot(car, Vec3::new(0, -2000, 93), Vec3::new(0, 4000, 17));
    let (plan, out) = tick(&mut state, &snap).unwrap();
    assert_eq!(plan.assessment, RoleAssessment { role: Role::Defense, breakaway: false });
    assert_eq!(plan.target, Vec3::new(0, -2081, 93));
    assert!(!out.boost);
    assert!(!state.kickoff_active);
    let mut refuelled = car;
    refuelled.boost_fuel = 100;
    let later = snapshot(refuelled, Vec3::new(0, -2000, 93), Vec3::new(0, 4000, 17));
    let (_, again) = tick(&mut state, &later).unwrap();
    assert!(!again.boost);
    assert!(!state.kickoff_active);
}

#[test]
fn kickoff_with_fuel_boosts_and_goes_on() {
    let mut state = PersistentAgentState::new();
    let snap = snapshot(car_at(0, -3000, 17), Vec3::new(0, -2000, 93), Vec3::new(0, 4000, 17));
    let (_, out) = tick(&mut state, &snap).unwrap();
    assert!(out.boost);
    assert!(state.kickoff_active);
}

#[test]
fn the_plan_carries_what_the_second_step_needs() {
    let mut state = PersistentAgentState::new();
    let snap = snapshot(car_at(0, -3000, 17), Vec3::new(0, -2000, 93), Vec3::new(0, -4000, 17));
    let plan = begin_tick(&mut state, &snap, &Tuning::default()).unwrap();
    assert_eq!(plan.assessment, RoleAssessment { role: Role::Offense, breakaway: true });
    assert_eq!(plan.ball, snap.ball.unwrap());
    assert_eq!(plan.opponent_goal, Vec3::new(0, 5120, 93));
    assert_eq!(plan.wanted, Vec3::new(0, 4096, 0));
    assert_eq!(plan.direction, Vec3::new(0, 4096, 0));
    assert_eq!(plan.contact, Vec3::new(0, -2099, 93));
    assert_eq!(plan.target, Vec3::new(0, -2099, 93));
    assert_eq!(plan.way_from(&snap.car), Vec3::new(0, 901, 76));
    assert_eq!(state.own_goal, Some(Vec3::new(0, -5120, 93)));
    assert_eq!(state.opponent_goal, Some(Vec3::new(0, 5120, 93)));
    assert!(state.kickoff_active);
}

#[test]
fn the_plan_tells_a_detour_and_the_ball_motion() {
    let mut state = PersistentAgentState::new();
    let mut snap = snapshot(car_at(40, 2000, 17), Vec3::new(0, 0, 93), Vec3::new(3000, -4000, 17));
    snap.ball = Some(Ball { position: Vec3::new(0, 0, 93), velocity: Vec3::new(1000, 0, 0) });
    let plan = begin_tick(&mut state, &snap, &Tuning::default()).unwrap();
    assert_eq!(plan.assessment.role, Role::Defense);
    let mut attacking = PersistentAgentState::new();
    snap.ball = Some(Ball { position: Vec3::new(0, 100, 93), velocity: Vec3::new(1000, 0, 0) });
    let plan = begin_tick(&mut attacking, &snap, &Tuning::default()).unwrap();
    assert_eq!(plan.assessment.role, Role::Offense);
    assert_eq!(plan.wanted, Vec3::new(0, 4096, 0));
    assert_eq!(plan.direction, Vec3::new(-2897, 2897, 0));
    assert_eq!(plan.contact, Vec3::new(71, 29, 93));
    assert_ne!(plan.target, plan.contact);
}

#[test]
fn nothing_is_decided_without_field_info() {
    let mut state = PersistentAgentState::new();
    let mut snap = snapshot(car_at(0, -3000, 17), Vec3::new(0, -2000, 93), Vec3::new(0, 4000, 17));
    snap.goals = None;
    assert_eq!(tick(&mut state, &snap), Err(Unavailable::FieldInfo));
    snap.ball = None;
    assert_eq!(tick(&mut state, &snap), Err(Unavailable::FieldInfo));
    assert_eq!(state, PersistentAgentState::new());
}

#[test]
fn nothing_is_decided_without_a_ball() {
    let mut state = PersistentAgentState::new();
    let mut snap = snapshot(car_at(0, -3000, 17), Vec3::new(0, -2000, 93), Vec3::new(0, 4000, 17));
    snap.ball = None;
    assert_eq!(tick(&mut state, &snap), Err(Unavailable::Ball));
    assert_eq!(state, PersistentAgentState::new());
}

#[test]
fn nothing_is_decided_without_both_goals() {
    let mut state = PersistentAgentState::new();
    let mut snap = snapshot(car_at(0, -3000, 17), Vec3::new(0, -2000, 93), Vec3::new(0, 4000, 17));
    snap.goals = Some(vec![]);
    assert_eq!(tick(&mut state, &snap), Err(Unavailable::OwnGoal));
    snap.goals = Some(vec![Goal { team: 1, position: Vec3::new(0, 5120, 93) }]);
    assert_eq!(tick(&mut state, &snap), Err(Unavailable::OwnGoal));
    assert_eq!(state.opponent_goal, Some(Vec3::new(0, 5120, 93)));
    let mut fresh = PersistentAgentState::new();
    snap.goals = Some(vec![Goal { team: 0, position: Vec3::new(0, -5120, 93) }]);
    assert_eq!(tick(&mut fresh, &snap), Err(Unavailable::OpponentGoal));
    assert_eq!(fresh.own_goal, Some(Vec3::new(0, -5120, 93)));
    assert!(fresh.kickoff_active);
}

#[test]
fn nothing_is_decided_for_a_ball_in_their_goal() {
    let mut state = PersistentAgentState::new();
    let snap = snapshot(car_at(0, -3000, 17), Vec3::new(0, 5120, 93), Vec3::new(0, 4000, 17));
    assert_eq!(tick(&mut state, &snap), Err(Unavailable::Direction));
    assert!(state.kickoff_active);
    assert_eq!(state.opponent_goal, Some(Vec3::new(0, 5120, 93)));
}

#[test]
fn goals_seen_once_outlast_a_changed_list() {
    let mut state = PersistentAgentState::new();
    let snap = snapshot(car_at(0, -3000, 17), Vec3::new(0, -2000, 93), Vec3::new(0, 4000, 17));
    tick(&mut state, &snap).unwrap();
    let mut moved = snapshot(car_at(0, -3000, 17), Vec3::new(0, -2000, 93), Vec3::new(0, 4000, 17));
    moved.goals = Some(vec![
        Goal { team: 0, position: Vec3::new(0, 5120, 93) },
        Goal { team: 1, position: Vec3::new(0, -5120, 93) },
    ]);
    let (plan, _) = tick(&mut state, &moved).unwrap();
    assert_eq!(state.own_goal, Some(Vec3::new(0, -5120, 93)));
    assert_eq!(plan.opponent_goal, Vec3::new(0, 5120, 93));
}

#[test]
fn out_of_range_input_is_told_apart() {
    let mut snap = snapshot(car_at(0, -3000, 17), Vec3::new(0, -2000, 93), Vec3::new(0, 4000, 17));
    assert!(snap.is_valid());
    snap.opponent = Vec3::new(0, 16_385, 0);
    assert!(!snap.is_valid());
    snap.opponent = Vec3::new(0, 16_384, 0);
    assert!(snap.is_valid());
    snap.car.yaw = Angle { nanoradians: 3_141_592_654 };
    assert!(!snap.is_valid());
    snap.car.yaw = Angle::from_degrees(180_000_000);
    assert!(snap.is_valid());
    snap.goals = Some(vec![Goal { team: 0, position: Vec3::new(-16_385, 0, 0) }]);
    assert!(!snap.is_valid());
    snap.goals = None;
    snap.ball = Some(Ball { position: Vec3::new(0, 0, 0), velocity: Vec3::new(0, 0, 20_000) });
    assert!(!snap.is_valid());
    let mut tuning = Tuning::default();
    assert!(tuning.is_valid());
    tuning.ball_radius = 0;
    assert!(!tuning.is_valid());
}
