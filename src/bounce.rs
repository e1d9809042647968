use vstd::prelude::*;
use vstd::arithmetic::div_mod::{lemma_div_is_ordered, lemma_div_is_ordered_by_denominator};

use crate::config::DIR_SCALE;
use crate::geometry::{abs, Collision, Rect};

verus! {

/// Largest bounce angle off a paddle's face, in tenths of a degree.
pub const MAX_BOUNCE_ANGLE: i64 = 700;

/// A right angle, in tenths of a degree.
pub const RIGHT_ANGLE: i64 = 900;

/// A direction of travel in thousandths of a unit: zero at rest, an axis
/// direction of length `DIR_SCALE` after a serve, and after a bounce off a side
/// face the cosine and sine of the bounce angle as `cosine` and `sine` give
/// them, so of unit length only up to that approximation. Each component lies
/// within `DIR_SCALE` of zero.
#[derive(Clone, Copy, Debug, PartialEq, Eq, Structural)]
pub struct Velocity {
    pub x: i64,
    pub y: i64,
}

impl Velocity {
    pub open spec fn wf(&self) -> bool {
        -DIR_SCALE <= self.x <= DIR_SCALE && -DIR_SCALE <= self.y <= DIR_SCALE
    }
}

/// Sine in thousandths of an angle `t` in tenths of a degree, `0 <= t <= 1800`,
/// by Bhaskara I's rational approximation (error below two thousandths).
pub open spec fn bhaskara(t: int) -> int {
    4000 * (t * (1800 - t)) / (4_050_000 - t * (1800 - t))
}

/// Sine in thousandths of an angle in tenths of a degree.
pub open spec fn sine(a: int) -> int {
    if a >= 0 {
        bhaskara(a)
    } else {
        -bhaskara(-a)
    }
}

/// Cosine in thousandths of an angle in tenths of a degree.
pub open spec fn cosine(a: int) -> int {
    bhaskara(RIGHT_ANGLE - abs(a))
}

/// The bounce angle for a hit `dy` above the collider's center: the offset
/// relative to the half height, clamped to one, times the largest angle, with
/// the fraction truncated toward zero.
pub open spec fn bounce_angle(dy: int, half_height: int) -> int {
    if dy >= half_height {
        MAX_BOUNCE_ANGLE as int
    } else if dy <= -half_height {
        -MAX_BOUNCE_ANGLE
    } else if dy >= 0 {
        MAX_BOUNCE_ANGLE * dy / half_height
    } else {
        -(MAX_BOUNCE_ANGLE * (-dy) / half_height)
    }
}

/// The unit direction leaving a side face at `angle`: leftward off the left
/// face, rightward off the right face.
pub open spec fn angled_velocity(angle: int, side: Collision) -> Velocity {
    let x = if side == Collision::Left {
        -cosine(angle)
    } else {
        cosine(angle)
    };
    Velocity { x: x as i64, y: sine(angle) as i64 }
}

/// Flips the vertical component off a top or bottom face, only where the ball
/// still moves into that face.
pub open spec fn reflect_vertical(v: Velocity, side: Collision) -> Velocity {
    let toward = match side {
        Collision::Top => v.y < 0,
        Collision::Bottom => v.y > 0,
        _ => false,
    };
    if toward {
        Velocity { x: v.x, y: (-v.y) as i64 }
    } else {
        v
    }
}

/// The velocity after a ball at height `ball_y` strikes `side` of `wall`.
pub open spec fn bounce(ball_y: int, v: Velocity, wall: Rect, side: Collision) -> Velocity {
    match side {
        Collision::Left | Collision::Right => angled_velocity(
            bounce_angle(ball_y - wall.center.y, wall.half_height as int),
            side,
        ),
        _ => reflect_vertical(v, side),
    }
}

proof fn lemma_bhaskara(t: int)
    requires
        0 <= t <= RIGHT_ANGLE,
    ensures
        0 <= t * (1800 - t) <= 810_000,
        0 <= bhaskara(t) <= DIR_SCALE,
{
    let p = t * (1800 - t);
    assert(0 <= p <= 810_000) by (nonlinear_arith)
        requires
            0 <= t <= 900,
            p == t * (1800 - t),
    ;
    let d = 4_050_000 - p;
    lemma_div_is_ordered(0, 4000 * p, d);
    lemma_div_is_ordered(4000 * p, 1000 * d, d);
    assert(1000 * d / d == 1000) by (nonlinear_arith)
        requires
            d > 0,
    ;
}

proof fn lemma_bhaskara_monotonic(t1: int, t2: int)
    requires
        0 <= t1 <= t2 <= RIGHT_ANGLE,
    ensures
        bhaskara(t1) <= bhaskara(t2),
{
    lemma_bhaskara(t1);
    lemma_bhaskara(t2);
    let lower = t1 * (1800 - t1);
    let upper = t2 * (1800 - t2);
    assert(lower <= upper) by (nonlinear_arith)
        requires
            0 <= t1 <= t2 <= 900,
            lower == t1 * (1800 - t1),
            upper == t2 * (1800 - t2),
    ;
    let den_lower = 4_050_000 - lower;
    let den_upper = 4_050_000 - upper;
    lemma_div_is_ordered_by_denominator(4000 * lower, den_upper, den_lower);
    lemma_div_is_ordered(4000 * lower, 4000 * upper, den_upper);
}

proof fn lemma_sine(a: int)
    requires
        -RIGHT_ANGLE <= a <= RIGHT_ANGLE,
    ensures
        -DIR_SCALE <= sine(a) <= DIR_SCALE,
        a >= 0 ==> sine(a) >= 0,
        a <= 0 ==> sine(a) <= 0,
        0 <= cosine(a) <= DIR_SCALE,
{
    lemma_bhaskara(abs(a));
    lemma_bhaskara(RIGHT_ANGLE - abs(a));
}

proof fn lemma_sine_monotonic(a1: int, a2: int)
    requires
        -RIGHT_ANGLE <= a1 <= a2 <= RIGHT_ANGLE,
    ensures
        sine(a1) <= sine(a2),
{
    lemma_sine(a1);
    lemma_sine(a2);
    if a1 >= 0 {
        lemma_bhaskara_monotonic(a1, a2);
    } else if a2 < 0 {
        lemma_bhaskara_monotonic(-a2, -a1);
    }
}

proof fn lemma_bounce_angle_range(dy: int, half_height: int)
    requires
        half_height > 0,
    ensures
        -MAX_BOUNCE_ANGLE <= bounce_angle(dy, half_height) <= MAX_BOUNCE_ANGLE,
        dy >= 0 ==> bounce_angle(dy, half_height) >= 0,
        dy <= 0 ==> bounce_angle(dy, half_height) <= 0,
{
    let m = MAX_BOUNCE_ANGLE as int;
    assert(m * half_height / half_height == m) by (nonlinear_arith)
        requires
            half_height > 0,
    ;
    if 0 <= dy < half_height {
        lemma_div_is_ordered(0, m * dy, half_height);
        lemma_div_is_ordered(m * dy, m * half_height, half_height);
    } else if -half_height < dy < 0 {
        lemma_div_is_ordered(0, m * (-dy), half_height);
        lemma_div_is_ordered(m * (-dy), m * half_height, half_height);
    }
}

/// The bounce angle grows with the height of the hit above the collider's
/// center and so does the upward component it gives: a hit nearer the top
/// leaves at least as steeply upward as one nearer the center.
pub proof fn bounce_angle_monotonic(dy1: int, dy2: int, half_height: int)
    requires
        half_height > 0,
        dy1 <= dy2,
    ensures
        bounce_angle(dy1, half_height) <= bounce_angle(dy2, half_height),
        sine(bounce_angle(dy1, half_height)) <= sine(bounce_angle(dy2, half_height)),
{
    let m = MAX_BOUNCE_ANGLE as int;
    lemma_bounce_angle_range(dy1, half_height);
    lemma_bounce_angle_range(dy2, half_height);
    if 0 <= dy1 && dy2 < half_height {
        lemma_div_is_ordered(m * dy1, m * dy2, half_height);
    } else if -half_height < dy1 && dy2 < 0 {
        lemma_div_is_ordered(m * (-dy2), m * (-dy1), half_height);
    }
    lemma_sine_monotonic(bounce_angle(dy1, half_height), bounce_angle(dy2, half_height));
}

/// At and beyond the collider's extremes the bounce angle is the largest one,
/// a hit at the center leaves straight, and no hit leaves steeper than the
/// largest angle.
pub proof fn bounce_angle_clamped(dy: int, half_height: int)
    requires
        half_height > 0,
    ensures
        -MAX_BOUNCE_ANGLE <= bounce_angle(dy, half_height) <= MAX_BOUNCE_ANGLE,
        dy >= half_height ==> bounce_angle(dy, half_height) == MAX_BOUNCE_ANGLE,
        dy <= -half_height ==> bounce_angle(dy, half_height) == -MAX_BOUNCE_ANGLE,
        dy == 0 ==> bounce_angle(dy, half_height) == 0,
{
    lemma_bounce_angle_range(dy, half_height);
}

/// A top or bottom reflection never turns a ball already moving away from that
/// face, so applying it again changes nothing.
pub proof fn vertical_reflection_idempotent(v: Velocity, side: Collision)
    requires
        v.wf(),
        side == Collision::Top || side == Collision::Bottom,
    ensures
        reflect_vertical(reflect_vertical(v, side), side) == reflect_vertical(v, side),
        side == Collision::Top && v.y >= 0 ==> reflect_vertical(v, side) == v,
        side == Collision::Bottom && v.y <= 0 ==> reflect_vertical(v, side) == v,
{
}

pub(crate) proof fn lemma_bounce_wf(ball_y: int, v: Velocity, wall: Rect, side: Collision)
    requires
        v.wf(),
        wall.half_height > 0,
    ensures
        bounce(ball_y, v, wall, side).wf(),
{
    let angle = bounce_angle(ball_y - wall.center.y, wall.half_height as int);
    lemma_bounce_angle_range(ball_y - wall.center.y, wall.half_height as int);
    lemma_sine(angle);
}

fn bhaskara_exec(t: i64) -> (r: i64)
    requires
        0 <= t <= RIGHT_ANGLE,
    ensures
        r == bhaskara(t as int),
        0 <= r <= DIR_SCALE,
{
    proof {
        lemma_bhaskara(t as int);
    }
    let p = t * (1800 - t);
    4000 * p / (4_050_000 - p)
}

/// Sine in thousandths of `a` tenths of a degree.
pub fn sine_permille(a: i64) -> (r: i64)
    requires
        -RIGHT_ANGLE <= a <= RIGHT_ANGLE,
    ensures
        r == sine(a as int),
        -DIR_SCALE <= r <= DIR_SCALE,
{
    proof {
        lemma_sine(a as int);
    }
    if a >= 0 {
        bhaskara_exec(a)
    } else {
        -bhaskara_exec(-a)
    }
}

/// Cosine in thousandths of `a` tenths of a degree.
pub fn cosine_permille(a: i64) -> (r: i64)
    requires
        -RIGHT_ANGLE <= a <= RIGHT_ANGLE,
    ensures
        r == cosine(a as int),
        0 <= r <= DIR_SCALE,
{
    proof {
        lemma_sine(a as int);
    }
    let m = if a < 0 {
        -a
    } else {
        a
    };
    bhaskara_exec(RIGHT_ANGLE - m)
}

/// The bounce angle, in tenths of a degree, for a ball at height `ball_y`
/// striking a side face of a collider centered at `center_y`.
pub fn paddle_bounce_angle(ball_y: i64, center_y: i64, half_height: i64) -> (r: i64)
    requires
        half_height > 0,
    ensures
        r == bounce_angle(ball_y - center_y, half_height as int),
        -MAX_BOUNCE_ANGLE <= r <= MAX_BOUNCE_ANGLE,
{
    proof {
        lemma_bounce_angle_range(ball_y - center_y, half_height as int);
    }
    let dy = ball_y as i128 - center_y as i128;
    let hh = half_height as i128;
    let m = MAX_BOUNCE_ANGLE as i128;
    if dy >= hh {
        MAX_BOUNCE_ANGLE
    } else if dy <= -hh {
        -MAX_BOUNCE_ANGLE
    } else if dy >= 0 {
        (m * dy / hh) as i64
    } else {
        -((m * (-dy) / hh) as i64)
    }
}

/// Flips the vertical component off a top or bottom face where the ball still
/// moves into it; leaves any other velocity as it is.
pub fn deflect_vertical(v: Velocity, side: Collision) -> (r: Velocity)
    requires
        v.wf(),
    ensures
        r.wf(),
        r == reflect_vertical(v, side),
{
    let toward = match side {
        Collision::Top => v.y < 0,
        Collision::Bottom => v.y > 0,
        _ => false,
    };
    if toward {
        Velocity { x: v.x, y: (-v.y) as i64 }
    } else {
        v
    }
}

/// The velocity after a ball at height `ball_y` moving along `v` strikes `side`
/// of `wall`: an angled launch off a side face, a guarded reflection off the
/// top or bottom.
pub fn bounce_velocity(ball_y: i64, v: Velocity, wall: Rect, side: Collision) -> (r: Velocity)
    requires
        v.wf(),
        wall.half_height > 0,
    ensures
        r == bounce(ball_y as int, v, wall, side),
        r.wf(),
{
    match side {
        Collision::Left | Collision::Right => {
            let angle = paddle_bounce_angle(ball_y, wall.center.y, wall.half_height);
            let c = cosine_permille(angle);
            let s = sine_permille(angle);
            let x = if side == Collision::Left {
                -c
            } else {
                c
            };
            Velocity { x, y: s }
        },
        _ => deflect_vertical(v, side),
    }
}

} // verus!
