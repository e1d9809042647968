use vstd::prelude::*;

use crate::collision::Event;
use crate::wall::{GoalEvent, Side};

verus! {

/// Goals scored by each side.
#[derive(Clone, Copy, Debug, PartialEq, Eq, Structural)]
pub struct Score {
    pub left: u32,
    pub right: u32,
}

/// The number of goal events for the goal of `side` in `events`.
pub open spec fn goals_into(events: Seq<Event>, side: Side) -> nat
    decreases events.len(),
{
    if events.len() == 0 {
        0
    } else {
        goals_into(events.drop_last(), side) + if events.last() == Event::Goal(GoalEvent(side)) {
            1nat
        } else {
            0nat
        }
    }
}

impl Score {
    pub open spec fn zero() -> Score {
        Score { left: 0, right: 0 }
    }

    /// The score after the ball entered the goal of `side`: the other side
    /// gains a point.
    pub open spec fn after_goal(self, side: Side) -> Score {
        match side {
            Side::Left => Score { right: (self.right + 1) as u32, ..self },
            Side::Right => Score { left: (self.left + 1) as u32, ..self },
        }
    }

    pub fn new() -> (r: Score)
        ensures
            r == Score::zero(),
    {
        Score { left: 0, right: 0 }
    }

    /// Credits a goal into the goal of `side` to the opposite side.
    pub fn record_goal(&mut self, side: Side)
        requires
            side == Side::Left ==> old(self).right < u32::MAX,
            side == Side::Right ==> old(self).left < u32::MAX,
        ensures
            *final(self) == old(self).after_goal(side),
            side == Side::Left ==> final(self).right == old(self).right + 1 && final(self).left
                == old(self).left,
            side == Side::Right ==> final(self).left == old(self).left + 1 && final(self).right
                == old(self).right,
    {
        match side {
            Side::Left => self.right = self.right + 1,
            Side::Right => self.left = self.left + 1,
        }
    }
}

/// Applies every goal event in order: each credits the side opposite the goal
/// entered; collision events change nothing.
pub fn update_scores(score: &mut Score, events: &Vec<Event>)
    requires
        old(score).right + goals_into(events@, Side::Left) <= u32::MAX,
        old(score).left + goals_into(events@, Side::Right) <= u32::MAX,
    ensures
        final(score).right == old(score).right + goals_into(events@, Side::Left),
        final(score).left == old(score).left + goals_into(events@, Side::Right),
{
    let n = events.len();
    let mut i: usize = 0;
    while i < n
        invariant
            0 <= i <= n,
            n == events@.len(),
            score.right == old(score).right + goals_into(events@.take(i as int), Side::Left),
            score.left == old(score).left + goals_into(events@.take(i as int), Side::Right),
            old(score).right + goals_into(events@, Side::Left) <= u32::MAX,
            old(score).left + goals_into(events@, Side::Right) <= u32::MAX,
        decreases n - i,
    {
        proof {
            assert(events@.take(i + 1).drop_last() =~= events@.take(i as int));
            lemma_goals_into_prefix(events@, i + 1, Side::Left);
            lemma_goals_into_prefix(events@, i + 1, Side::Right);
        }
        if let Event::Goal(goal) = events[i] {
            score.record_goal(goal.0);
        }
        i = i + 1;
    }
    assert(events@.take(n as int) =~= events@);
}

proof fn lemma_goals_into_prefix(events: Seq<Event>, k: int, side: Side)
    requires
        0 <= k <= events.len(),
    ensures
        goals_into(events.take(k), side) <= goals_into(events, side),
    decreases events.len() - k,
{
    if k < events.len() {
        lemma_goals_into_prefix(events, k + 1, side);
        assert(events.take(k + 1).drop_last() =~= events.take(k));
    } else {
        assert(events.take(k) =~= events);
    }
}

/// Sets both sides' scores back to zero.
pub fn reset_scores(score: &mut Score)
    ensures
        *final(score) == Score::zero(),
{
    score.right = 0;
    score.left = 0;
}

} // verus!
