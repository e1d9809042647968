use vstd::prelude::*;

use crate::ball::Ball;
use crate::bounce::{bounce, bounce_velocity, lemma_bounce_wf};
use crate::geometry::{collide_with_side, collision_of};
use crate::wall::{Collider, GoalEvent};

verus! {

/// What a tick's collision pass reports to the rest of the game.
#[derive(Clone, Copy, Debug, PartialEq, Eq, Structural)]
pub enum Event {
    /// The ball bounced off a wall or a paddle.
    Collision,
    /// The ball entered a goal.
    Goal(GoalEvent),
}

/// Whether the ball touches the collider.
pub open spec fn touches(ball: Ball, c: Collider) -> bool {
    collision_of(ball.circle_spec(), c.rect) is Some
}

/// Whether the `i`-th collider is a goal that the ball touches.
pub open spec fn enters_goal(ball: Ball, cs: Seq<Collider>, i: int) -> bool {
    cs[i].goal is Some && touches(ball, cs[i])
}

/// The index of the first goal, from index `i` on, that the ball touches.
pub open spec fn first_goal(ball: Ball, cs: Seq<Collider>, i: int) -> Option<int>
    decreases cs.len() - i,
{
    if i < 0 || i >= cs.len() {
        None
    } else if enters_goal(ball, cs, i) {
        Some(i)
    } else {
        first_goal(ball, cs, i + 1)
    }
}

/// Whether the `i`-th collider is a wall or paddle that the ball touches.
pub open spec fn bounces_off(ball: Ball, cs: Seq<Collider>, i: int) -> bool {
    cs[i].goal is None && touches(ball, cs[i])
}

/// The velocity after bouncing, in order, off every wall and paddle among the
/// first `n` colliders that the ball touches.
pub open spec fn bounced(ball: Ball, cs: Seq<Collider>, n: int) -> crate::bounce::Velocity
    decreases n,
{
    if n <= 0 {
        ball.velocity
    } else {
        let v = bounced(ball, cs, n - 1);
        if bounces_off(ball, cs, n - 1) {
            bounce(
                ball.position.y as int,
                v,
                cs[n - 1].rect,
                collision_of(ball.circle_spec(), cs[n - 1].rect).unwrap(),
            )
        } else {
            v
        }
    }
}

/// One collision event for each wall or paddle among the first `n` colliders
/// that the ball touches.
pub open spec fn bounce_events(ball: Ball, cs: Seq<Collider>, n: int) -> Seq<Event>
    decreases n,
{
    if n <= 0 {
        seq![]
    } else if bounces_off(ball, cs, n - 1) {
        bounce_events(ball, cs, n - 1).push(Event::Collision)
    } else {
        bounce_events(ball, cs, n - 1)
    }
}

/// The ball and the events after a collision pass over the colliders in
/// order: the ball bounces off each touched wall and paddle, with a collision
/// event for each, until the first touched goal, which adds a goal event and
/// ends the pass.
pub open spec fn resolved(ball: Ball, cs: Seq<Collider>) -> (Ball, Seq<Event>) {
    match first_goal(ball, cs, 0) {
        Some(g) => (
            Ball { velocity: bounced(ball, cs, g), ..ball },
            bounce_events(ball, cs, g).push(Event::Goal(GoalEvent(cs[g].goal.unwrap().side))),
        ),
        None => (
            Ball { velocity: bounced(ball, cs, cs.len() as int), ..ball },
            bounce_events(ball, cs, cs.len() as int),
        ),
    }
}

proof fn lemma_bounced_wf(ball: Ball, cs: Seq<Collider>, n: int)
    requires
        ball.wf(),
        n <= cs.len(),
        forall|i: int| 0 <= i < cs.len() ==> (#[trigger] cs[i]).wf(),
    ensures
        bounced(ball, cs, n).wf(),
    decreases n,
{
    if n > 0 {
        lemma_bounced_wf(ball, cs, n - 1);
        if bounces_off(ball, cs, n - 1) {
            lemma_bounce_wf(
                ball.position.y as int,
                bounced(ball, cs, n - 1),
                cs[n - 1].rect,
                collision_of(ball.circle_spec(), cs[n - 1].rect).unwrap(),
            );
        }
    }
}

/// Tests the ball against the colliders in order: it bounces off each wall and
/// paddle it touches, with a collision event for each, and the first goal it
/// touches adds a goal event and ends the pass.
pub fn handle_collisions(ball: &mut Ball, colliders: &Vec<Collider>) -> (events: Vec<Event>)
    requires
        old(ball).wf(),
        forall|i: int| 0 <= i < colliders@.len() ==> (#[trigger] colliders@[i]).wf(),
    ensures
        (*final(ball), events@) == resolved(*old(ball), colliders@),
        final(ball).wf(),
{
    let ghost start = *ball;
    let circle = ball.circle();
    let n = colliders.len();
    let mut events: Vec<Event> = Vec::new();
    let mut i: usize = 0;
    while i < n
        invariant
            0 <= i <= n,
            n == colliders@.len(),
            first_goal(start, colliders@, 0) == first_goal(start, colliders@, i as int),
            start == *old(ball),
            ball.position == start.position,
            ball.velocity == bounced(start, colliders@, i as int),
            events@ == bounce_events(start, colliders@, i as int),
            circle == start.circle_spec(),
            start.wf(),
            forall|k: int| 0 <= k < colliders@.len() ==> (#[trigger] colliders@[k]).wf(),
        decreases n - i,
    {
        proof {
            lemma_bounced_wf(start, colliders@, i as int);
        }
        let c = colliders[i];
        if let Some(side) = collide_with_side(circle, c.rect) {
            match c.goal {
                Some(goal) => {
                    assert(enters_goal(start, colliders@, i as int));
                    assert(first_goal(start, colliders@, 0) == Some(i as int));
                    events.push(Event::Goal(GoalEvent(goal.side)));
                    return events;
                },
                None => {
                    events.push(Event::Collision);
                    ball.velocity = bounce_velocity(ball.position.y, ball.velocity, c.rect, side);
                },
            }
        }
        i = i + 1;
    }
    proof {
        lemma_bounced_wf(start, colliders@, n as int);
    }
    events
}

} // verus!
