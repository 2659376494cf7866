//! What the agent remembers from tick to tick: where the two goals are, once
//! they have been seen, and whether the kickoff is still on.

use vstd::prelude::*;
use crate::snapshot::{goals_wf, Goal, COORD_LIMIT};
use crate::vector::Vec3;

verus! {

/// The position of the last goal of the list that belongs to `team`, when
/// `own` holds, or to another team, when it does not.
pub open spec fn last_goal(goals: Seq<Goal>, team: i32, own: bool) -> Option<Vec3>
    decreases goals.len(),
{
    if goals.len() == 0 {
        None
    } else if (goals.last().team == team) == own {
        Some(goals.last().position)
    } else {
        last_goal(goals.drop_last(), team, own)
    }
}

/// A goal that `last_goal` finds is a goal of the list on the side asked
/// for, with no goal of that side after it; and it finds none only when the
/// list has none of that side.
pub proof fn lemma_last_goal_is_listed(goals: Seq<Goal>, team: i32, own: bool)
    ensures
        last_goal(goals, team, own) matches Some(p) ==> exists|i: int|
            0 <= i < goals.len() && (#[trigger] goals[i]).position == p && (goals[i].team == team)
                == own && forall|j: int|
                i < j < goals.len() ==> ((#[trigger] goals[j]).team == team) != own,
        last_goal(goals, team, own).is_none() ==> forall|i: int|
            0 <= i < goals.len() ==> ((#[trigger] goals[i]).team == team) != own,
    decreases goals.len(),
{
    if goals.len() > 0 {
        let front = goals.drop_last();
        let end = goals.len() - 1;
        if (goals.last().team == team) == own {
            assert(goals[end].position == goals.last().position);
        } else {
            lemma_last_goal_is_listed(front, team, own);
            match last_goal(front, team, own) {
                Some(p) => {
                    let i = choose|i: int|
                        0 <= i < front.len() && (#[trigger] front[i]).position == p && (
                        front[i].team == team) == own && forall|j: int|
                            i < j < front.len() ==> ((#[trigger] front[j]).team == team) != own;
                    assert(goals[i] == front[i]);
                    assert forall|j: int| i < j < goals.len() implies ((#[trigger] goals[j]).team
                        == team) != own by {
                        if j < end {
                            assert(goals[j] == front[j]);
                        }
                    }
                },
                None => {
                    assert forall|i: int| 0 <= i < goals.len() implies ((
                    #[trigger] goals[i]).team == team) != own by {
                        if i < end {
                            assert(goals[i] == front[i]);
                        }
                    }
                },
            }
        }
    }
}

/// The agent's memory.
#[derive(Clone, Copy, Debug, PartialEq, Eq, Structural)]
pub struct PersistentAgentState {
    pub own_goal: Option<Vec3>,
    pub opponent_goal: Option<Vec3>,
    pub kickoff_active: bool,
}

impl PersistentAgentState {
    /// The goals that are known lie within the coordinate limit.
    pub open spec fn wf(&self) -> bool {
        &&& self.own_goal matches Some(p) ==> p@.within(COORD_LIMIT as int)
        &&& self.opponent_goal matches Some(p) ==> p@.within(COORD_LIMIT as int)
    }

    /// The memory at the agent's start: no goal known, kickoff on.
    pub open spec fn initial() -> PersistentAgentState {
        PersistentAgentState { own_goal: None, opponent_goal: None, kickoff_active: true }
    }

    /// The memory after the list of goals has been seen by a car of
    /// `own_team`: a goal that was known stays as it was, and one that was
    /// not becomes the last of the list on its side.
    pub open spec fn discovered(self, goals: Seq<Goal>, own_team: i32) -> PersistentAgentState {
        PersistentAgentState {
            own_goal: if self.own_goal.is_some() {
                self.own_goal
            } else {
                last_goal(goals, own_team, true)
            },
            opponent_goal: if self.opponent_goal.is_some() {
                self.opponent_goal
            } else {
                last_goal(goals, own_team, false)
            },
            kickoff_active: self.kickoff_active,
        }
    }

    /// The memory after `boost_fuel` has been observed: the kickoff stays on
    /// only if it was on and there is fuel left.
    pub open spec fn observed(self, boost_fuel: u32) -> PersistentAgentState {
        PersistentAgentState {
            own_goal: self.own_goal,
            opponent_goal: self.opponent_goal,
            kickoff_active: self.kickoff_active && boost_fuel != 0,
        }
    }

    /// Whether the goals that are known lie within the coordinate limit.
    pub fn is_valid(&self) -> (r: bool)
        ensures
            r == self.wf(),
    {
        (match self.own_goal {
            Some(goal) => goal.is_within(COORD_LIMIT),
            None => true,
        }) && (match self.opponent_goal {
            Some(goal) => goal.is_within(COORD_LIMIT),
            None => true,
        })
    }

    /// The memory at the agent's start.
    pub fn new() -> (r: PersistentAgentState)
        ensures
            r == PersistentAgentState::initial(),
            r.wf(),
    {
        PersistentAgentState { own_goal: None, opponent_goal: None, kickoff_active: true }
    }

    /// Takes note of the goals, each side once.
    pub fn discover_goals(&mut self, goals: &Vec<Goal>, own_team: i32)
        ensures
            *final(self) == old(self).discovered(goals@, own_team),
            old(self).wf() && goals_wf(goals@) ==> final(self).wf(),
    {
        if self.own_goal.is_some() && self.opponent_goal.is_some() {
            return ;
        }
        let mut own: Option<Vec3> = None;
        let mut opponent: Option<Vec3> = None;
        let mut i: usize = 0;
        while i < goals.len()
            invariant
                i <= goals.len(),
                own == last_goal(goals@.subrange(0, i as int), own_team, true),
                opponent == last_goal(goals@.subrange(0, i as int), own_team, false),
            decreases goals.len() - i,
        {
            proof {
                let seen = goals@.subrange(0, i + 1);
                assert(seen.drop_last() =~= goals@.subrange(0, i as int));
                assert(seen.last() == goals@[i as int]);
            }
            if goals[i].team == own_team {
                own = Some(goals[i].position);
            } else {
                opponent = Some(goals[i].position);
            }
            i += 1;
        }
        proof {
            assert(goals@.subrange(0, goals@.len() as int) =~= goals@);
            lemma_last_goal_is_listed(goals@, own_team, true);
            lemma_last_goal_is_listed(goals@, own_team, false);
        }
        if self.own_goal.is_none() {
            self.own_goal = own;
        }
        if self.opponent_goal.is_none() {
            self.opponent_goal = opponent;
        }
    }

    /// Ends the kickoff once the boost fuel is seen at zero.
    pub fn update_kickoff(&mut self, boost_fuel: u32)
        ensures
            *final(self) == old(self).observed(boost_fuel),
    {
        if self.kickoff_active && boost_fuel == 0 {
            self.kickoff_active = false;
        }
    }
}

/// A goal that is known is never written again, whatever list is seen.
pub proof fn law_goals_are_written_once(
    state: PersistentAgentState,
    goals: Seq<Goal>,
    own_team: i32,
)
    ensures
        state.own_goal.is_some() ==> state.discovered(goals, own_team).own_goal == state.own_goal,
        state.opponent_goal.is_some() ==> state.discovered(goals, own_team).opponent_goal
            == state.opponent_goal,
{
}

/// Once both goals are known, seeing any list of goals changes nothing, and
/// seeing the same list twice is the same as seeing it once.
pub proof fn law_discovery_settles(
    state: PersistentAgentState,
    goals: Seq<Goal>,
    again: Seq<Goal>,
    own_team: i32,
)
    ensures
        state.own_goal.is_some() && state.opponent_goal.is_some() ==> state.discovered(
            again,
            own_team,
        ) == state,
        state.discovered(goals, own_team).discovered(goals, own_team) == state.discovered(
            goals,
            own_team,
        ),
{
}

/// The kickoff never comes back on: whatever fuel is observed, a kickoff
/// that is off stays off, and one that sees no fuel goes off.
pub proof fn law_kickoff_is_a_latch(state: PersistentAgentState, boost_fuel: u32)
    ensures
        !state.kickoff_active ==> !state.observed(boost_fuel).kickoff_active,
        boost_fuel == 0 ==> !state.observed(boost_fuel).kickoff_active,
        state.kickoff_active && boost_fuel > 0 ==> state.observed(boost_fuel).kickoff_active,
        state.observed(boost_fuel).own_goal == state.own_goal,
        state.observed(boost_fuel).opponent_goal == state.opponent_goal,
{
}

} // verus!
