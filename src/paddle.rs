use vstd::prelude::*;

use crate::config::{DIR_SCALE, UNIT, WIDTH};
use crate::geometry::{clamp, Point, Rect};
use crate::wall::{Collider, Side};

verus! {

/// Half the width of a paddle.
pub const PADDLE_HALF_WIDTH: i64 = 10 * UNIT;

/// Half the height of a paddle.
pub const PADDLE_HALF_HEIGHT: i64 = 30 * UNIT;

/// Gap between a paddle's outer face and its end of the play area.
pub const PADDLE_OFFSET: i64 = 40 * UNIT;

/// Speed of a paddle at full input, in world units per second.
pub const PADDLE_SPEED: i64 = 500;

/// Height difference to the ball within which the computer's paddle holds
/// still.
pub const CPU_DIFFERENCE_TOLERANCE: i64 = 7 * UNIT;

/// The computer's paddle moves at its height difference to the ball divided by
/// this many world units, as a fraction of full speed.
pub const CPU_CATCH_UP: i64 = 100;

/// Highest center a paddle can take: its top edge meets the top of the play
/// area, `HEIGHT / 2 - PADDLE_HALF_HEIGHT`.
pub const PADDLE_TOP_BOUND: i64 = 170 * UNIT;

/// Lowest center a paddle can take, `-(HEIGHT / 2) + PADDLE_HALF_HEIGHT`.
pub const PADDLE_BOTTOM_BOUND: i64 = -170 * UNIT;

/// Bound on a paddle's vertical velocity in thousandths. The computer's answer
/// to the largest height difference that two `i64` heights can have stays
/// below it.
pub const MAX_PADDLE_VELOCITY: i64 = 0xFF_FFFF_FFFF;

/// A paddle: the side it defends, the height of its center and its vertical
/// velocity in thousandths of full speed.
#[derive(Clone, Copy, Debug, PartialEq, Eq, Structural)]
pub struct Paddle {
    pub side: Side,
    pub y: i64,
    pub velocity: i64,
}

/// Horizontal center of the paddle on `side`.
pub open spec fn paddle_x(side: Side) -> i64 {
    match side {
        Side::Left => (-(WIDTH / 2) + (PADDLE_OFFSET + PADDLE_HALF_WIDTH)) as i64,
        Side::Right => (WIDTH / 2 - (PADDLE_OFFSET + PADDLE_HALF_WIDTH)) as i64,
    }
}

/// Where the paddle on `side` is spawned.
pub fn position(side: Side) -> (r: Point)
    ensures
        r == (Point { x: paddle_x(side), y: 0 }),
{
    let x = match side {
        Side::Left => -(WIDTH / 2) + (PADDLE_OFFSET + PADDLE_HALF_WIDTH),
        Side::Right => WIDTH / 2 - (PADDLE_OFFSET + PADDLE_HALF_WIDTH),
    };
    Point { x, y: 0 }
}

impl Paddle {
    pub open spec fn wf(&self) -> bool {
        &&& PADDLE_BOTTOM_BOUND <= self.y <= PADDLE_TOP_BOUND
        &&& -MAX_PADDLE_VELOCITY <= self.velocity <= MAX_PADDLE_VELOCITY
    }

    /// The paddle on `side` as spawned: centered vertically and still.
    pub open spec fn spawned(side: Side) -> Paddle {
        Paddle { side, y: 0, velocity: 0 }
    }

    pub open spec fn collider_spec(&self) -> Collider {
        Collider {
            rect: Rect {
                center: Point { x: paddle_x(self.side), y: self.y },
                half_width: PADDLE_HALF_WIDTH,
                half_height: PADDLE_HALF_HEIGHT,
            },
            goal: None,
        }
    }

    pub fn new(side: Side) -> (r: Paddle)
        ensures
            r == Paddle::spawned(side),
            r.wf(),
    {
        let p = position(side);
        Paddle { side, y: p.y, velocity: 0 }
    }

    /// The rectangle the ball is tested against.
    pub fn collider(&self) -> (r: Collider)
        ensures
            r == self.collider_spec(),
            r.wf(),
    {
        let p = position(self.side);
        Collider {
            rect: Rect {
                center: Point { x: p.x, y: self.y },
                half_width: PADDLE_HALF_WIDTH,
                half_height: PADDLE_HALF_HEIGHT,
            },
            goal: None,
        }
    }
}

/// Vertical velocity from the up and down keys: full speed up, full speed
/// down, or still when both or neither are held.
pub open spec fn input_velocity(up: bool, down: bool) -> i64 {
    if up && !down {
        DIR_SCALE
    } else if down && !up {
        (-DIR_SCALE) as i64
    } else {
        0
    }
}

/// Division truncated toward zero.
pub open spec fn trunc_div(a: int, b: int) -> int {
    if a >= 0 {
        a / b
    } else {
        -((-a) / b)
    }
}

/// The computer's velocity for a paddle at `paddle_y`: toward the ball in
/// proportion to the height difference, still within the tolerance or when
/// there is no ball.
pub open spec fn cpu_velocity(paddle_y: int, ball_y: Option<i64>) -> int {
    match ball_y {
        None => 0,
        Some(by) => {
            let diff = paddle_y - by;
            if diff > CPU_DIFFERENCE_TOLERANCE || diff < -CPU_DIFFERENCE_TOLERANCE {
                -trunc_div(diff * DIR_SCALE, CPU_CATCH_UP * UNIT)
            } else {
                0
            }
        },
    }
}

/// The paddle after moving for `dt` microseconds, held within the play area.
pub open spec fn paddle_moved(p: Paddle, dt: u64) -> Paddle {
    Paddle {
        y: clamp(
            p.y + p.velocity * PADDLE_SPEED * dt,
            PADDLE_BOTTOM_BOUND as int,
            PADDLE_TOP_BOUND as int,
        ) as i64,
        ..p
    }
}

/// Sets the player's paddle velocity from the up and down keys.
pub fn handle_player_input(paddle: &mut Paddle, up: bool, down: bool)
    requires
        old(paddle).wf(),
    ensures
        *final(paddle) == (Paddle { velocity: input_velocity(up, down), ..*old(paddle) }),
        final(paddle).wf(),
{
    let mut vertical_direction: i64 = 0;
    if up {
        vertical_direction = vertical_direction + DIR_SCALE;
    }
    if down {
        vertical_direction = vertical_direction - DIR_SCALE;
    }
    paddle.velocity = vertical_direction;
}

/// Steers the computer's paddle toward the ball's height, or stops it when
/// there is no ball.
pub fn cpu_matches_ball(paddle: &mut Paddle, ball_y: Option<i64>)
    requires
        old(paddle).wf(),
    ensures
        *final(paddle) == (Paddle {
            velocity: cpu_velocity(old(paddle).y as int, ball_y) as i64,
            ..*old(paddle)
        }),
        final(paddle).velocity == cpu_velocity(old(paddle).y as int, ball_y),
        final(paddle).wf(),
{
    match ball_y {
        None => {
            paddle.velocity = 0;
        },
        Some(by) => {
            let diff = paddle.y as i128 - by as i128;
            let tolerance = CPU_DIFFERENCE_TOLERANCE as i128;
            if diff > tolerance || diff < -tolerance {
                let divisor = (CPU_CATCH_UP * UNIT) as i128;
                let scaled = diff * DIR_SCALE as i128;
                proof {
                    assert(-0x1_0000_0000_0000_0000 * 1000 <= scaled <= 0x1_0000_0000_0000_0000
                        * 1000);
                }
                let v = if scaled >= 0 {
                    -(scaled / divisor)
                } else {
                    (-scaled) / divisor
                };
                proof {
                    vstd::arithmetic::div_mod::lemma_div_is_ordered(
                        if scaled >= 0 {
                            scaled as int
                        } else {
                            -scaled
                        },
                        0xFF_FFFF_FFFF * (divisor as int),
                        divisor as int,
                    );
                    assert(0xFF_FFFF_FFFF * (divisor as int) / (divisor as int) == 0xFF_FFFF_FFFF) by (nonlinear_arith)
                        requires
                            divisor > 0,
                    ;
                    vstd::arithmetic::div_mod::lemma_div_is_ordered(
                        0,
                        if scaled >= 0 {
                            scaled as int
                        } else {
                            -scaled
                        },
                        divisor as int,
                    );
                }
                paddle.velocity = v as i64;
            } else {
                paddle.velocity = 0;
            }
        },
    }
}

/// Moves the paddle along its velocity at `PADDLE_SPEED` for `dt`
/// microseconds, held within the play area.
pub fn move_paddles(paddle: &mut Paddle, dt: u64)
    requires
        old(paddle).wf(),
    ensures
        *final(paddle) == paddle_moved(*old(paddle), dt),
        final(paddle).wf(),
{
    let v = paddle.velocity as i128;
    proof {
        assert(-0xFF_FFFF_FFFF * 500 * dt <= v * 500 * dt <= 0xFF_FFFF_FFFF * 500 * dt)
            by (nonlinear_arith)
            requires
                -0xFF_FFFF_FFFF <= v <= 0xFF_FFFF_FFFF,
                0 <= dt,
        ;
        assert(0xFF_FFFF_FFFF * 500 * dt <= 0xFF_FFFF_FFFF * 500 * 0x1_0000_0000_0000_0000int)
            by (nonlinear_arith)
            requires
                0 <= dt <= 0x1_0000_0000_0000_0000int,
        ;
    }
    let target = paddle.y as i128 + v * PADDLE_SPEED as i128 * dt as i128;
    let y = if target < PADDLE_BOTTOM_BOUND as i128 {
        PADDLE_BOTTOM_BOUND
    } else if target > PADDLE_TOP_BOUND as i128 {
        PADDLE_TOP_BOUND
    } else {
        target as i64
    };
    paddle.y = y;
}

/// Returns both paddles to their spawn positions, still.
pub fn reset_paddles(cpu: &mut Paddle, player: &mut Paddle)
    ensures
        *final(cpu) == Paddle::spawned(old(cpu).side),
        *final(player) == Paddle::spawned(old(player).side),
        final(cpu).wf(),
        final(player).wf(),
{
    *cpu = Paddle::new(cpu.side);
    *player = Paddle::new(player.side);
}

} // verus!
