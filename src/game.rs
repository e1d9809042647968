use vstd::prelude::*;

use crate::ball::{
    displacement, has_headroom, move_ball, moved, reset_ball, reset_ball_goal, serve_ball, served,
    Ball, ServeDirection, ServeTimer,
};
use crate::collision::{
    bounce_events, bounced, bounces_off, first_goal, handle_collisions, resolved, touches, Event,
};
use crate::config::UNIT;
use crate::geometry::{offset_x, offset_y};
use crate::paddle::{
    cpu_matches_ball, cpu_velocity, handle_player_input, input_velocity, move_paddles,
    paddle_moved, reset_paddles, Paddle,
};
use crate::schedule::{menu_action, menu_command, GameState, MenuButtonAction, MenuCommand};
use crate::score::{goals_into, reset_scores, update_scores, Score};
use crate::wall::{arena_spec, spawn_walls, Collider, GoalEvent, Side};

verus! {

/// The keys read for one tick.
#[derive(Clone, Copy, Debug, PartialEq, Eq, Structural)]
pub struct PlayerInput {
    pub up: bool,
    pub down: bool,
    pub menu: bool,
}

/// Which sounds a tick's events call for: at most one of each kind.
#[derive(Clone, Copy, Debug, PartialEq, Eq, Structural)]
pub struct AudioCues {
    pub collision: bool,
    pub goal: bool,
}

/// The whole simulation: the phase, the ball, the computer's paddle on the
/// left, the player's on the right, the score, the serve state and the events
/// of the last tick, which the next tick consumes.
pub struct Game {
    pub phase: GameState,
    pub is_first_run: bool,
    pub ball: Ball,
    pub cpu: Paddle,
    pub player: Paddle,
    pub score: Score,
    pub serve_timer: ServeTimer,
    pub serve_direction: ServeDirection,
    pub events: Vec<Event>,
}

/// The mathematical state of a `Game`.
pub struct GameView {
    pub phase: GameState,
    pub is_first_run: bool,
    pub ball: Ball,
    pub cpu: Paddle,
    pub player: Paddle,
    pub score: Score,
    pub serve_timer: ServeTimer,
    pub serve_direction: ServeDirection,
    pub events: Seq<Event>,
}

impl View for Game {
    type V = GameView;

    open spec fn view(&self) -> GameView {
        GameView {
            phase: self.phase,
            is_first_run: self.is_first_run,
            ball: self.ball,
            cpu: self.cpu,
            player: self.player,
            score: self.score,
            serve_timer: self.serve_timer,
            serve_direction: self.serve_direction,
            events: self.events@,
        }
    }
}

/// Whether the events hold a goal.
pub open spec fn has_goal(events: Seq<Event>) -> bool {
    goals_into(events, Side::Left) + goals_into(events, Side::Right) > 0
}

/// Everything the ball is tested against: the arena, then the player's paddle,
/// then the computer's.
pub open spec fn colliders_spec(cpu: Paddle, player: Paddle) -> Seq<Collider> {
    arena_spec().push(player.collider_spec()).push(cpu.collider_spec())
}

impl GameView {
    pub open spec fn wf(&self) -> bool {
        &&& self.phase != GameState::Reset
        &&& self.ball.wf()
        &&& self.cpu.wf() && self.cpu.side == Side::Left
        &&& self.player.wf() && self.player.side == Side::Right
        &&& self.serve_timer.wf()
        &&& !self.serve_timer.finished ==> self.ball == Ball::at_rest()
        &&& goals_into(self.events, Side::Left) + goals_into(self.events, Side::Right) <= 1
    }

    /// A game as it starts: in the menu, never played, everything at rest.
    pub open spec fn initial() -> GameView {
        GameView {
            phase: GameState::Menu,
            is_first_run: true,
            ball: Ball::at_rest(),
            cpu: Paddle::spawned(Side::Left),
            player: Paddle::spawned(Side::Right),
            score: Score::zero(),
            serve_timer: ServeTimer::fresh(),
            serve_direction: ServeDirection::Right,
            events: seq![],
        }
    }

    /// A full reset: scores zero, the ball at rest at the center, paddles at
    /// their spawn positions, the serve timer rewound, the next serve to the
    /// right, no pending events; then play begins.
    pub open spec fn reset_spec(self) -> GameView {
        GameView {
            phase: GameState::Playing,
            is_first_run: false,
            ball: Ball::at_rest(),
            cpu: Paddle::spawned(Side::Left),
            player: Paddle::spawned(Side::Right),
            score: Score::zero(),
            serve_timer: self.serve_timer.rewound(),
            serve_direction: ServeDirection::Right,
            events: seq![],
        }
    }

    /// The state after entering `next`.
    pub open spec fn entered(self, next: GameState) -> GameView {
        match next {
            GameState::Menu => GameView { phase: GameState::Menu, ..self },
            GameState::Playing => GameView {
                phase: GameState::Playing,
                is_first_run: false,
                ..self
            },
            GameState::Reset => self.reset_spec(),
        }
    }

    /// One tick of play, stage by stage: last tick's goal puts the ball back
    /// and rewinds the serve timer; the keys and the ball's height set the
    /// paddles' velocities; the serve timer may launch the ball, which then
    /// moves; last tick's goals are scored; the paddles move; the ball is
    /// tested against every collider. The menu key opens the menu after the
    /// tick. Outside of play nothing changes.
    pub open spec fn ticked(self, dt: u64, input: PlayerInput) -> GameView {
        if self.phase != GameState::Playing {
            self
        } else {
            let goal = has_goal(self.events);
            let ball1 = if goal {
                Ball::at_rest()
            } else {
                self.ball
            };
            let timer1 = if goal {
                self.serve_timer.rewound()
            } else {
                self.serve_timer
            };
            let player1 = Paddle { velocity: input_velocity(input.up, input.down), ..self.player };
            let cpu1 = Paddle {
                velocity: cpu_velocity(self.cpu.y as int, Some(ball1.position.y)) as i64,
                ..self.cpu
            };
            let serve = served(ball1, timer1, self.serve_direction, dt);
            let ball3 = moved(serve.0, dt);
            let score = Score {
                left: (self.score.left + goals_into(self.events, Side::Right)) as u32,
                right: (self.score.right + goals_into(self.events, Side::Left)) as u32,
            };
            let player2 = paddle_moved(player1, dt);
            let cpu2 = paddle_moved(cpu1, dt);
            let contact = resolved(ball3, colliders_spec(cpu2, player2));
            GameView {
                phase: if input.menu {
                    GameState::Menu
                } else {
                    GameState::Playing
                },
                is_first_run: self.is_first_run,
                ball: contact.0,
                cpu: cpu2,
                player: player2,
                score,
                serve_timer: serve.1,
                serve_direction: serve.2,
                events: contact.1,
            }
        }
    }
}

proof fn lemma_bounce_events_hold_no_goal(ball: Ball, cs: Seq<Collider>, n: int, side: Side)
    ensures
        goals_into(bounce_events(ball, cs, n), side) == 0,
    decreases n,
{
    if n > 0 {
        lemma_bounce_events_hold_no_goal(ball, cs, n - 1, side);
        if bounces_off(ball, cs, n - 1) {
            let e = bounce_events(ball, cs, n - 1).push(Event::Collision);
            assert(e.drop_last() =~= bounce_events(ball, cs, n - 1));
        }
    }
}

/// A collision pass reports at most one goal.
proof fn lemma_resolved_one_goal(ball: Ball, cs: Seq<Collider>)
    ensures
        goals_into(resolved(ball, cs).1, Side::Left) + goals_into(resolved(ball, cs).1, Side::Right)
            <= 1,
{
    match first_goal(ball, cs, 0) {
        Some(g) => {
            let prior = bounce_events(ball, cs, g);
            let e = prior.push(Event::Goal(GoalEvent(cs[g].goal.unwrap().side)));
            lemma_bounce_events_hold_no_goal(ball, cs, g, Side::Left);
            lemma_bounce_events_hold_no_goal(ball, cs, g, Side::Right);
            assert(e.drop_last() =~= prior);
            assert(goals_into(e, Side::Left) + goals_into(e, Side::Right) == 1);
        },
        None => {
            lemma_bounce_events_hold_no_goal(ball, cs, cs.len() as int, Side::Left);
            lemma_bounce_events_hold_no_goal(ball, cs, cs.len() as int, Side::Right);
        },
    }
}

/// A ball at rest at the center touches no wall, goal or paddle.
proof fn lemma_center_is_clear(cpu: Paddle, player: Paddle)
    requires
        cpu.wf() && cpu.side == Side::Left,
        player.wf() && player.side == Side::Right,
    ensures
        forall|i: int|
            0 <= i < colliders_spec(cpu, player).len() ==> !touches(
                Ball::at_rest(),
                #[trigger] colliders_spec(cpu, player)[i],
            ),
{
    let cs = colliders_spec(cpu, player);
    let b = Ball::at_rest();
    assert forall|i: int| 0 <= i < cs.len() implies !touches(b, #[trigger] cs[i]) by {
        let c = b.circle_spec();
        let ox = offset_x(c, cs[i].rect);
        let oy = offset_y(c, cs[i].rect);
        if i < 2 {
            assert(oy * oy > c.radius * c.radius) by (nonlinear_arith)
                requires
                    oy == 200 * UNIT || oy == -200 * UNIT,
                    c.radius == 10 * UNIT,
            ;
        } else {
            assert(ox * ox > c.radius * c.radius) by (nonlinear_arith)
                requires
                    ox == 300 * UNIT || ox == -300 * UNIT || ox == 240 * UNIT || ox == -240
                        * UNIT,
                    c.radius == 10 * UNIT,
            ;
        }
        assert(ox * ox + oy * oy >= ox * ox && ox * ox + oy * oy >= oy * oy) by (nonlinear_arith);
    }
}

/// A collision pass over colliders that the ball does not touch changes
/// nothing and reports nothing.
proof fn lemma_untouched_pass(ball: Ball, cs: Seq<Collider>)
    requires
        forall|i: int| 0 <= i < cs.len() ==> !touches(ball, #[trigger] cs[i]),
    ensures
        resolved(ball, cs) == (ball, Seq::<Event>::empty()),
{
    lemma_untouched_from(ball, cs, 0);
    lemma_untouched_prefix(ball, cs, cs.len() as int);
    assert(Ball { velocity: ball.velocity, ..ball } == ball);
}

proof fn lemma_untouched_from(ball: Ball, cs: Seq<Collider>, i: int)
    requires
        0 <= i,
        forall|k: int| 0 <= k < cs.len() ==> !touches(ball, #[trigger] cs[k]),
    ensures
        first_goal(ball, cs, i) is None,
    decreases cs.len() - i,
{
    if i < cs.len() {
        lemma_untouched_from(ball, cs, i + 1);
    }
}

proof fn lemma_untouched_prefix(ball: Ball, cs: Seq<Collider>, n: int)
    requires
        n <= cs.len(),
        forall|k: int| 0 <= k < cs.len() ==> !touches(ball, #[trigger] cs[k]),
    ensures
        bounced(ball, cs, n) == ball.velocity,
        bounce_events(ball, cs, n) == Seq::<Event>::empty(),
    decreases n,
{
    if n > 0 {
        lemma_untouched_prefix(ball, cs, n - 1);
    }
}

/// Whether any event of the sequence is a goal.
fn any_goal(events: &Vec<Event>) -> (r: bool)
    ensures
        r == has_goal(events@),
{
    let n = events.len();
    let mut i: usize = 0;
    while i < n
        invariant
            0 <= i <= n,
            n == events@.len(),
            !has_goal(events@.take(i as int)),
        decreases n - i,
    {
        assert(events@.take(i + 1).drop_last() =~= events@.take(i as int));
        if let Event::Goal(_) = events[i] {
            proof {
                lemma_has_goal_prefix(events@, i + 1);
            }
            return true;
        }
        i = i + 1;
    }
    assert(events@.take(n as int) =~= events@);
    false
}

proof fn lemma_has_goal_prefix(events: Seq<Event>, k: int)
    requires
        0 <= k <= events.len(),
        has_goal(events.take(k)),
    ensures
        has_goal(events),
    decreases events.len() - k,
{
    if k < events.len() {
        assert(events.take(k + 1).drop_last() =~= events.take(k));
        lemma_has_goal_prefix(events, k + 1);
    } else {
        assert(events.take(k) =~= events);
    }
}

/// The sounds a tick's events call for: one collision sound if any bounce
/// happened, one goal sound if a goal was entered.
pub fn audio_cues(events: &Vec<Event>) -> (r: AudioCues)
    ensures
        r.collision == exists|i: int| 0 <= i < events@.len() && events@[i] == Event::Collision,
        r.goal == exists|i: int| 0 <= i < events@.len() && (#[trigger] events@[i]) is Goal,
{
    let mut cues = AudioCues { collision: false, goal: false };
    let n = events.len();
    let mut i: usize = 0;
    while i < n
        invariant
            0 <= i <= n,
            n == events@.len(),
            cues.collision == exists|k: int| 0 <= k < i && events@[k] == Event::Collision,
            cues.goal == exists|k: int| 0 <= k < i && (#[trigger] events@[k]) is Goal,
        decreases n - i,
    {
        match events[i] {
            Event::Collision => cues.collision = true,
            Event::Goal(_) => cues.goal = true,
        }
        i = i + 1;
    }
    cues
}

impl Game {
    /// A game in the menu, never played, with everything at rest.
    pub fn new() -> (r: Game)
        ensures
            r@ == GameView::initial(),
            r@.wf(),
    {
        let r = Game {
            phase: GameState::Menu,
            is_first_run: true,
            ball: Ball::new(),
            cpu: Paddle::new(Side::Left),
            player: Paddle::new(Side::Right),
            score: Score::new(),
            serve_timer: ServeTimer::new(),
            serve_direction: ServeDirection::default(),
            events: Vec::new(),
        };
        assert(r@.events =~= seq![]);
        r
    }

    /// Everything the ball is tested against this tick.
    pub fn colliders(&self) -> (r: Vec<Collider>)
        requires
            self.cpu.wf(),
            self.player.wf(),
        ensures
            r@ == colliders_spec(self.cpu, self.player),
            forall|i: int| 0 <= i < r@.len() ==> (#[trigger] r@[i]).wf(),
    {
        let mut cs = spawn_walls();
        cs.push(self.player.collider());
        cs.push(self.cpu.collider());
        cs
    }

    /// Resets everything for a new game and starts play.
    pub fn reset(&mut self)
        requires
            old(self)@.wf(),
        ensures
            final(self)@ == old(self)@.reset_spec(),
            final(self)@.wf(),
            final(self).score == Score::zero(),
            final(self).ball.position.x == 0 && final(self).ball.position.y == 0,
            final(self).ball.velocity.x == 0 && final(self).ball.velocity.y == 0,
            final(self).serve_direction == ServeDirection::Right,
            final(self).cpu == Paddle::spawned(Side::Left),
            final(self).player == Paddle::spawned(Side::Right),
    {
        reset_ball(&mut self.ball, &mut self.serve_timer, &mut self.serve_direction);
        reset_paddles(&mut self.cpu, &mut self.player);
        reset_scores(&mut self.score);
        self.events = Vec::new();
        self.phase = GameState::Playing;
        self.is_first_run = false;
        assert(self@.events =~= seq![]);
    }

    /// Leaves the current phase and enters `next`; entering `Reset` runs a
    /// full reset and moves on to `Playing` at once.
    pub fn transition_to(&mut self, next: GameState)
        requires
            old(self)@.wf(),
        ensures
            final(self)@ == old(self)@.entered(next),
            final(self)@.wf(),
    {
        match next {
            GameState::Menu => {
                self.phase = GameState::Menu;
            },
            GameState::Playing => {
                self.phase = GameState::Playing;
                self.is_first_run = false;
            },
            GameState::Reset => {
                self.reset();
            },
        }
    }

    /// Handles a menu button while the menu is open. Returns whether the
    /// program should quit.
    pub fn press(&mut self, action: MenuButtonAction) -> (quit: bool)
        requires
            old(self)@.wf(),
        ensures
            final(self)@.wf(),
            old(self).phase != GameState::Menu ==> final(self)@ == old(self)@ && !quit,
            old(self).phase == GameState::Menu ==> match menu_command(
                action,
                old(self).is_first_run,
            ) {
                None => final(self)@ == old(self)@ && !quit,
                Some(MenuCommand::Enter(next)) => final(self)@ == old(self)@.entered(next) && !quit,
                Some(MenuCommand::Quit) => final(self)@ == old(self)@ && quit,
            },
    {
        if self.phase != GameState::Menu {
            return false;
        }
        match menu_action(action, self.is_first_run) {
            None => false,
            Some(MenuCommand::Enter(next)) => {
                self.transition_to(next);
                false
            },
            Some(MenuCommand::Quit) => true,
        }
    }

    /// Runs one tick of `dt` microseconds with the given keys.
    pub fn tick(&mut self, dt: u64, input: PlayerInput)
        requires
            old(self)@.wf(),
            has_headroom(old(self).ball.position, dt),
            old(self).score.right + goals_into(old(self).events@, Side::Left) <= u32::MAX,
            old(self).score.left + goals_into(old(self).events@, Side::Right) <= u32::MAX,
        ensures
            final(self)@ == old(self)@.ticked(dt, input),
            final(self)@.wf(),
    {
        if self.phase != GameState::Playing {
            return;
        }
        // Reset stage: the last tick's goal puts the ball back.
        if any_goal(&self.events) {
            reset_ball_goal(&mut self.ball, &mut self.serve_timer);
        }
        assert(!self.serve_timer.finished ==> self.ball == Ball::at_rest());
        // Input stage.
        handle_player_input(&mut self.player, input.up, input.down);
        cpu_matches_ball(&mut self.cpu, Some(self.ball.position.y));
        // Entity updates.
        serve_ball(&mut self.ball, &mut self.serve_timer, &mut self.serve_direction, dt);
        assert(!self.serve_timer.finished ==> self.ball == Ball::at_rest());
        proof {
            if !self.serve_timer.finished {
                assert(displacement(0, dt as int) == 0) by (nonlinear_arith);
                assert(moved(self.ball, dt) == Ball::at_rest());
            }
        }
        move_ball(&mut self.ball, dt);
        update_scores(&mut self.score, &self.events);
        move_paddles(&mut self.player, dt);
        move_paddles(&mut self.cpu, dt);
        // Collision detection.
        assert(!self.serve_timer.finished ==> self.ball == Ball::at_rest());
        let colliders = self.colliders();
        let ghost moving = self.ball;
        let events = handle_collisions(&mut self.ball, &colliders);
        proof {
            lemma_resolved_one_goal(moving, colliders@);
            if !self.serve_timer.finished {
                lemma_center_is_clear(self.cpu, self.player);
                lemma_untouched_pass(moving, colliders@);
            }
        }
        self.events = events;
        if input.menu {
            self.transition_to(GameState::Menu);
        }
    }
}

proof fn lemma_goal_counted(events: Seq<Event>, i: int, side: Side)
    requires
        0 <= i < events.len(),
        events[i] == Event::Goal(GoalEvent(side)),
    ensures
        goals_into(events, side) >= 1,
    decreases events.len(),
{
    if i < events.len() - 1 {
        lemma_goal_counted(events.drop_last(), i, side);
    }
}

/// The tick of play after one that reported a goal into `side` credits exactly
/// the other side with one point, and, unless that tick alone outlasts the
/// serve delay, leaves the ball at rest at the center with the serve timer
/// counting from the start and the serve direction as it was.
pub proof fn goal_scores_and_rearms(g: GameView, dt: u64, input: PlayerInput, side: Side)
    requires
        g.wf(),
        g.phase == GameState::Playing,
        g.events.contains(Event::Goal(GoalEvent(side))),
        side == Side::Left ==> g.score.right < u32::MAX,
        side == Side::Right ==> g.score.left < u32::MAX,
    ensures
        side == Side::Left ==> g.ticked(dt, input).score.right == g.score.right + 1
            && g.ticked(dt, input).score.left == g.score.left,
        side == Side::Right ==> g.ticked(dt, input).score.left == g.score.left + 1
            && g.ticked(dt, input).score.right == g.score.right,
        dt < g.serve_timer.duration ==> {
            &&& g.ticked(dt, input).ball == Ball::at_rest()
            &&& g.ticked(dt, input).serve_timer == ServeTimer {
                elapsed: dt,
                ..g.serve_timer.rewound()
            }
            &&& g.ticked(dt, input).serve_direction == g.serve_direction
            &&& g.ticked(dt, input).events == Seq::<Event>::empty()
        },
{
    let i = choose|i: int| 0 <= i < g.events.len() && g.events[i] == Event::Goal(GoalEvent(side));
    lemma_goal_counted(g.events, i, side);
    if dt < g.serve_timer.duration {
        let player1 = Paddle { velocity: input_velocity(input.up, input.down), ..g.player };
        let cpu1 = Paddle { velocity: cpu_velocity(g.cpu.y as int, Some(0)) as i64, ..g.cpu };
        let player2 = paddle_moved(player1, dt);
        let cpu2 = paddle_moved(cpu1, dt);
        assert(displacement(0, dt as int) == 0) by (nonlinear_arith);
        assert(moved(Ball::at_rest(), dt) == Ball::at_rest());
        lemma_center_is_clear(cpu2, player2);
        lemma_untouched_pass(Ball::at_rest(), colliders_spec(cpu2, player2));
    }
}

} // verus!
