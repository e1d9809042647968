use vstd::prelude::*;

use crate::bounce::Velocity;
use crate::config::{DIR_SCALE, TIME_TO_SERVE, UNIT};
use crate::geometry::{Circle, Point};

verus! {

/// Radius of the ball.
pub const BALL_RADIUS: i64 = 10 * UNIT;

/// Speed of the ball in world units per second. A direction in thousandths
/// times this speed times microseconds gives nanounits, since `DIR_SCALE`
/// times `SECOND` is `UNIT`.
pub const BALL_SPEED: i64 = 400;

/// The ball: its center and its direction of travel.
#[derive(Clone, Copy, Debug, PartialEq, Eq, Structural)]
pub struct Ball {
    pub position: Point,
    pub velocity: Velocity,
}

impl Ball {
    pub open spec fn wf(&self) -> bool {
        self.velocity.wf()
    }

    /// The ball at rest at the center of the field.
    pub open spec fn at_rest() -> Ball {
        Ball { position: Point { x: 0, y: 0 }, velocity: Velocity { x: 0, y: 0 } }
    }

    pub open spec fn circle_spec(&self) -> Circle {
        Circle { center: self.position, radius: BALL_RADIUS }
    }

    /// A ball at rest at the center of the field, awaiting its serve.
    pub fn new() -> (r: Ball)
        ensures
            r == Ball::at_rest(),
            r.wf(),
    {
        Ball { position: Point { x: 0, y: 0 }, velocity: Velocity { x: 0, y: 0 } }
    }

    /// The disc the ball occupies.
    pub fn circle(&self) -> (r: Circle)
        ensures
            r == self.circle_spec(),
            r.wf(),
    {
        Circle { center: self.position, radius: BALL_RADIUS }
    }
}

/// Displacement in nanounits along one direction component over `dt`
/// microseconds.
pub open spec fn displacement(component: int, dt: int) -> int {
    component * BALL_SPEED * dt
}

/// Whether a ball at `p` can move for `dt` microseconds in any direction
/// without leaving the range of `i64`.
pub open spec fn has_headroom(p: Point, dt: u64) -> bool {
    let reach = DIR_SCALE * BALL_SPEED * dt;
    -i64::MAX <= p.x - reach && p.x + reach <= i64::MAX && -i64::MAX <= p.y - reach && p.y
        + reach <= i64::MAX
}

pub open spec fn moved(ball: Ball, dt: u64) -> Ball {
    Ball {
        position: Point {
            x: (ball.position.x + displacement(ball.velocity.x as int, dt as int)) as i64,
            y: (ball.position.y + displacement(ball.velocity.y as int, dt as int)) as i64,
        },
        velocity: ball.velocity,
    }
}

proof fn lemma_displacement_bounded(component: int, dt: int)
    requires
        -DIR_SCALE <= component <= DIR_SCALE,
        0 <= dt,
    ensures
        -(DIR_SCALE * BALL_SPEED * dt) <= displacement(component, dt) <= DIR_SCALE * BALL_SPEED
            * dt,
{
    assert(-(1000 * 400 * dt) <= component * 400 * dt <= 1000 * 400 * dt) by (nonlinear_arith)
        requires
            -1000 <= component <= 1000,
            0 <= dt,
    ;
}

/// Moving for `dt1` and then for `dt2` lands where moving for the sum would:
/// the ball covers its direction times `BALL_SPEED` times the total time.
pub proof fn motion_accumulates(ball: Ball, dt1: u64, dt2: u64)
    requires
        ball.wf(),
        has_headroom(ball.position, dt1),
        has_headroom(moved(ball, dt1).position, dt2),
    ensures
        moved(moved(ball, dt1), dt2).velocity == ball.velocity,
        moved(moved(ball, dt1), dt2).position.x == ball.position.x + displacement(
            ball.velocity.x as int,
            dt1 + dt2,
        ),
        moved(moved(ball, dt1), dt2).position.y == ball.position.y + displacement(
            ball.velocity.y as int,
            dt1 + dt2,
        ),
{
    let vx = ball.velocity.x as int;
    let vy = ball.velocity.y as int;
    lemma_displacement_bounded(vx, dt1 as int);
    lemma_displacement_bounded(vy, dt1 as int);
    lemma_displacement_bounded(vx, dt2 as int);
    lemma_displacement_bounded(vy, dt2 as int);
    assert(displacement(vx, dt1 as int) + displacement(vx, dt2 as int) == displacement(
        vx,
        dt1 + dt2,
    )) by (nonlinear_arith);
    assert(displacement(vy, dt1 as int) + displacement(vy, dt2 as int) == displacement(
        vy,
        dt1 + dt2,
    )) by (nonlinear_arith);
}

/// The total of a sequence of tick lengths.
pub open spec fn total_time(dts: Seq<u64>) -> int
    decreases dts.len(),
{
    if dts.len() == 0 {
        0
    } else {
        total_time(dts.drop_last()) + dts.last()
    }
}

/// The ball after moving through each tick length of `dts` in turn.
pub open spec fn moved_through(ball: Ball, dts: Seq<u64>) -> Ball
    decreases dts.len(),
{
    if dts.len() == 0 {
        ball
    } else {
        moved(moved_through(ball, dts.drop_last()), dts.last())
    }
}

/// Over any number of ticks without a serve or a bounce, the ball ends at its
/// start plus its direction times `BALL_SPEED` times the total time, as long
/// as a full-speed move over that total time stays within `i64`.
pub proof fn motion_over_ticks(ball: Ball, dts: Seq<u64>)
    requires
        ball.wf(),
        -i64::MAX <= ball.position.x - DIR_SCALE * BALL_SPEED * total_time(dts),
        ball.position.x + DIR_SCALE * BALL_SPEED * total_time(dts) <= i64::MAX,
        -i64::MAX <= ball.position.y - DIR_SCALE * BALL_SPEED * total_time(dts),
        ball.position.y + DIR_SCALE * BALL_SPEED * total_time(dts) <= i64::MAX,
    ensures
        moved_through(ball, dts).velocity == ball.velocity,
        moved_through(ball, dts).position.x == ball.position.x + displacement(
            ball.velocity.x as int,
            total_time(dts),
        ),
        moved_through(ball, dts).position.y == ball.position.y + displacement(
            ball.velocity.y as int,
            total_time(dts),
        ),
    decreases dts.len(),
{
    if dts.len() > 0 {
        let prefix = dts.drop_last();
        let dt = dts.last();
        let t = total_time(prefix);
        lemma_total_time_nonnegative(prefix);
        assert(total_time(dts) == t + dt);
        assert(DIR_SCALE * BALL_SPEED * t <= DIR_SCALE * BALL_SPEED * (t + dt)) by (nonlinear_arith)
            requires
                DIR_SCALE * BALL_SPEED > 0,
                dt >= 0,
        ;
        motion_over_ticks(ball, prefix);
        let vx = ball.velocity.x as int;
        let vy = ball.velocity.y as int;
        assert(displacement(vx, t) + displacement(vx, dt as int) == displacement(vx, t + dt))
            by (nonlinear_arith);
        assert(displacement(vy, t) + displacement(vy, dt as int) == displacement(vy, t + dt))
            by (nonlinear_arith);
        lemma_displacement_bounded(vx, t + dt);
        lemma_displacement_bounded(vy, t + dt);
    }
}

proof fn lemma_total_time_nonnegative(dts: Seq<u64>)
    ensures
        total_time(dts) >= 0,
    decreases dts.len(),
{
    if dts.len() > 0 {
        lemma_total_time_nonnegative(dts.drop_last());
    }
}

fn step(component: i64, dt: u64) -> (r: i128)
    requires
        -DIR_SCALE <= component <= DIR_SCALE,
    ensures
        r == displacement(component as int, dt as int),
        -(DIR_SCALE * BALL_SPEED * dt) <= r <= DIR_SCALE * BALL_SPEED * dt,
{
    proof {
        lemma_displacement_bounded(component as int, dt as int);
        assert(DIR_SCALE * BALL_SPEED * dt <= 1000 * 400 * 0x1_0000_0000_0000_0000int)
            by (nonlinear_arith)
            requires
                0 <= dt < 0x1_0000_0000_0000_0000int,
        ;
    }
    component as i128 * BALL_SPEED as i128 * dt as i128
}

/// Advances the ball along its direction at `BALL_SPEED` for `dt`
/// microseconds.
pub fn move_ball(ball: &mut Ball, dt: u64)
    requires
        old(ball).wf(),
        has_headroom(old(ball).position, dt),
    ensures
        *final(ball) == moved(*old(ball), dt),
        final(ball).wf(),
{
    let dx = step(ball.velocity.x, dt);
    let dy = step(ball.velocity.y, dt);
    ball.position.x = (ball.position.x as i128 + dx) as i64;
    ball.position.y = (ball.position.y as i128 + dy) as i64;
}

/// The direction of the next serve.
#[derive(Clone, Copy, Debug, PartialEq, Eq, Structural)]
pub enum ServeDirection {
    Left,
    Right,
}

impl ServeDirection {
    pub open spec fn flipped(self) -> ServeDirection {
        match self {
            ServeDirection::Left => ServeDirection::Right,
            ServeDirection::Right => ServeDirection::Left,
        }
    }

    /// The unit direction a serve in this direction gives the ball.
    pub open spec fn launch(self) -> Velocity {
        match self {
            ServeDirection::Left => Velocity { x: (-DIR_SCALE) as i64, y: 0 },
            ServeDirection::Right => Velocity { x: DIR_SCALE, y: 0 },
        }
    }

    pub fn opposite(&self) -> (r: ServeDirection)
        ensures
            r == self.flipped(),
    {
        match self {
            ServeDirection::Left => ServeDirection::Right,
            ServeDirection::Right => ServeDirection::Left,
        }
    }

    pub fn unit_velocity(&self) -> (r: Velocity)
        ensures
            r == self.launch(),
            r.wf(),
    {
        match self {
            ServeDirection::Left => Velocity { x: -DIR_SCALE, y: 0 },
            ServeDirection::Right => Velocity { x: DIR_SCALE, y: 0 },
        }
    }
}

impl Default for ServeDirection {
    /// The first serve of a game goes right.
    fn default() -> (r: ServeDirection)
        ensures
            r == ServeDirection::Right,
    {
        ServeDirection::Right
    }
}

/// The direction of the serve after `k` serves from `start`.
pub open spec fn flipped_times(start: ServeDirection, k: nat) -> ServeDirection
    decreases k,
{
    if k == 0 {
        start
    } else {
        flipped_times(start, (k - 1) as nat).flipped()
    }
}

/// Serves strictly alternate: starting from the default, the `k`-th serve
/// (counting from zero) goes right when `k` is even and left when it is odd,
/// and each serve goes the other way from the one before.
pub proof fn serve_directions_alternate(k: nat)
    ensures
        flipped_times(ServeDirection::Right, k) == (if k % 2 == 0 {
            ServeDirection::Right
        } else {
            ServeDirection::Left
        }),
        flipped_times(ServeDirection::Right, k + 1) != flipped_times(ServeDirection::Right, k),
        flipped_times(ServeDirection::Right, k).launch().x == (if k % 2 == 0 {
            DIR_SCALE as int
        } else {
            -DIR_SCALE
        }),
    decreases k,
{
    if k > 0 {
        serve_directions_alternate((k - 1) as nat);
    }
}

/// A serve tick on which the timer expires launches the ball along the
/// current direction and leaves the opposite direction for the next serve; on
/// any other tick the ball and the direction stay as they are.
pub proof fn expiry_launches_and_flips(
    ball: Ball,
    timer: ServeTimer,
    direction: ServeDirection,
    dt: u64,
)
    requires
        timer.wf(),
    ensures
        timer.ticked(dt).just_finished ==> served(ball, timer, direction, dt).0.velocity
            == direction.launch() && served(ball, timer, direction, dt).2 == direction.flipped(),
        !timer.ticked(dt).just_finished ==> served(ball, timer, direction, dt).0 == ball
            && served(ball, timer, direction, dt).2 == direction,
        !timer.finished && timer.elapsed + dt >= timer.duration ==> timer.ticked(
            dt,
        ).just_finished,
        timer.finished ==> !timer.ticked(dt).just_finished,
{
}

/// A one-shot countdown: it finishes once `duration` microseconds have been
/// ticked into it, and reports that on the tick it happens.
#[derive(Clone, Copy, Debug, PartialEq, Eq, Structural)]
pub struct ServeTimer {
    pub duration: u64,
    pub elapsed: u64,
    pub finished: bool,
    pub just_finished: bool,
}

impl ServeTimer {
    pub open spec fn wf(&self) -> bool {
        &&& self.duration > 0
        &&& self.elapsed <= self.duration
        &&& self.finished <==> self.elapsed == self.duration
        &&& self.just_finished ==> self.finished
    }

    /// A timer set to `TIME_TO_SERVE`, with nothing elapsed.
    pub open spec fn fresh() -> ServeTimer {
        ServeTimer { duration: TIME_TO_SERVE, elapsed: 0, finished: false, just_finished: false }
    }

    pub open spec fn rewound(self) -> ServeTimer {
        ServeTimer { duration: self.duration, elapsed: 0, finished: false, just_finished: false }
    }

    pub open spec fn ticked(self, dt: u64) -> ServeTimer {
        if self.finished {
            ServeTimer { just_finished: false, ..self }
        } else if self.elapsed + dt >= self.duration {
            ServeTimer { elapsed: self.duration, finished: true, just_finished: true, ..self }
        } else {
            ServeTimer {
                elapsed: (self.elapsed + dt) as u64,
                finished: false,
                just_finished: false,
                ..self
            }
        }
    }

    pub fn new() -> (r: ServeTimer)
        ensures
            r == ServeTimer::fresh(),
            r.wf(),
    {
        ServeTimer { duration: TIME_TO_SERVE, elapsed: 0, finished: false, just_finished: false }
    }

    /// Counts `dt` microseconds down; a finished timer stays finished.
    pub fn tick(&mut self, dt: u64)
        requires
            old(self).wf(),
        ensures
            *final(self) == old(self).ticked(dt),
            final(self).wf(),
    {
        if self.finished {
            self.just_finished = false;
        } else if dt >= self.duration - self.elapsed {
            self.elapsed = self.duration;
            self.finished = true;
            self.just_finished = true;
        } else {
            self.elapsed = self.elapsed + dt;
            self.just_finished = false;
        }
    }

    /// Rewinds the timer to the start of its countdown, unfinished.
    pub fn reset(&mut self)
        requires
            old(self).wf(),
        ensures
            *final(self) == old(self).rewound(),
            final(self).wf(),
    {
        self.elapsed = 0;
        self.finished = false;
        self.just_finished = false;
    }
}

impl Default for ServeTimer {
    fn default() -> (r: ServeTimer)
        ensures
            r == ServeTimer::fresh(),
    {
        ServeTimer::new()
    }
}

/// The state a serve tick leaves: the timer ticked; on expiry the ball
/// launched along the current direction and the direction flipped.
pub open spec fn served(ball: Ball, timer: ServeTimer, direction: ServeDirection, dt: u64) -> (
    Ball,
    ServeTimer,
    ServeDirection,
) {
    let t = timer.ticked(dt);
    if t.just_finished {
        (Ball { velocity: direction.launch(), ..ball }, t, direction.flipped())
    } else {
        (ball, t, direction)
    }
}

/// Ticks the serve timer and, when it expires, launches the ball in the
/// current serve direction and flips the direction for the next serve.
pub fn serve_ball(
    ball: &mut Ball,
    serve_timer: &mut ServeTimer,
    serve_direction: &mut ServeDirection,
    dt: u64,
)
    requires
        old(ball).wf(),
        old(serve_timer).wf(),
    ensures
        (*final(ball), *final(serve_timer), *final(serve_direction)) == served(
            *old(ball),
            *old(serve_timer),
            *old(serve_direction),
            dt,
        ),
        final(ball).wf(),
        final(serve_timer).wf(),
{
    serve_timer.tick(dt);
    if serve_timer.just_finished {
        ball.velocity = serve_direction.unit_velocity();
        *serve_direction = serve_direction.opposite();
    }
}

/// Puts the ball back at rest at the center after a goal and rewinds the serve
/// timer.
pub fn reset_ball_goal(ball: &mut Ball, serve_timer: &mut ServeTimer)
    requires
        old(serve_timer).wf(),
    ensures
        *final(ball) == Ball::at_rest(),
        *final(serve_timer) == old(serve_timer).rewound(),
        final(serve_timer).wf(),
{
    *ball = Ball::new();
    serve_timer.reset();
}

/// Puts the ball back at rest at the center for a new game, rewinds the serve
/// timer and makes the next serve go right.
pub fn reset_ball(
    ball: &mut Ball,
    serve_timer: &mut ServeTimer,
    serve_direction: &mut ServeDirection,
)
    requires
        old(serve_timer).wf(),
    ensures
        *final(ball) == Ball::at_rest(),
        *final(serve_timer) == old(serve_timer).rewound(),
        final(serve_timer).wf(),
        *final(serve_direction) == ServeDirection::Right,
{
    *ball = Ball::new();
    serve_timer.reset();
    *serve_direction = ServeDirection::default();
}

} // verus!
