use ball_tactics::snapshot::Goal;
use ball_tactics::state::PersistentAgentState;
use ball_tactics::vector::Vec3;

fn goal(team: i32, y: i64) -> Goal {
    Goal { team, position: Vec3::new(0, y, 321) }
}

#[test]
fn a_new_agent_knows_no_goal_and_is_in_kickoff() {
    let state = PersistentAgentState::new();
    assert_eq!(state.own_goal, None);
    assert_eq!(state.opponent_goal, None);
    assert!(state.kickoff_active);
}

#[test]
fn goals_are_assigned_by_team() {
    let mut state = PersistentAgentState::new();
    state.discover_goals(&vec![goal(0, -5120), goal(1, 5120)], 1);
    assert_eq!(state.own_goal, Some(Vec3::new(0, 5120, 321)));
    assert_eq!(state.opponent_goal, Some(Vec3::new(0, -5120, 321)));
    assert!(state.kickoff_active);
}

#[test]
fn known_goals_are_never_overwritten() {
    let mut state = PersistentAgentState::new();
    state.discover_goals(&vec![goal(0, -5120), goal(1, 5120)], 0);
    let known = state;
    state.discover_goals(&vec![goal(0, -1), goal(1, 1)], 0);
    assert_eq!(state, known);
    state.discover_goals(&vec![goal(0, -1), goal(1, 1)], 1);
    assert_eq!(state, known);
    state.discover_goals(&vec![], 0);
    assert_eq!(state, known);
}

#[test]
fn the_last_goal_of_a_side_is_taken() {
    let mut state = PersistentAgentState::new();
    state.discover_goals(&vec![goal(2, 7), goal(0, -5120), goal(0, -9), goal(1, 5120)], 0);
    assert_eq!(state.own_goal, Some(Vec3::new(0, -9, 321)));
    assert_eq!(state.opponent_goal, Some(Vec3::new(0, 5120, 321)));
}

#[test]
fn validity_is_about_the_known_goals() {
    let mut state = PersistentAgentState::new();
    assert!(state.is_valid());
    state.own_goal = Some(Vec3::new(0, 16_384, 0));
    assert!(state.is_valid());
    state.opponent_goal = Some(Vec3::new(0, 0, -16_385));
    assert!(!state.is_valid());
}

#[test]
fn a_missing_side_is_filled_in_later() {
    let mut state = PersistentAgentState::new();
    state.discover_goals(&vec![], 0);
    assert_eq!(state, PersistentAgentState::new());
    state.discover_goals(&vec![goal(0, -5120)], 0);
    assert_eq!(state.own_goal, Some(Vec3::new(0, -5120, 321)));
    assert_eq!(state.opponent_goal, None);
    state.discover_goals(&vec![goal(0, -1), goal(1, 5120)], 0);
    assert_eq!(state.own_goal, Some(Vec3::new(0, -5120, 321)));
    assert_eq!(state.opponent_goal, Some(Vec3::new(0, 5120, 321)));
}

#[test]
fn kickoff_ends_when_the_fuel_is_gone_and_stays_ended() {
    let mut state = PersistentAgentState::new();
    state.update_kickoff(33);
    assert!(state.kickoff_active);
    state.update_kickoff(1);
    assert!(state.kickoff_active);
    state.update_kickoff(0);
    assert!(!state.kickoff_active);
    state.update_kickoff(100);
    assert!(!state.kickoff_active);
    state.update_kickoff(0);
    assert!(!state.kickoff_active);
    assert_eq!(state.own_goal, None);
    assert_eq!(state.opponent_goal, None);
}
