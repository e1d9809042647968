use vstd::prelude::*;

verus! {

/// A point of the plane, in nanounits.
#[derive(Clone, Copy, Debug, PartialEq, Eq, Structural)]
pub struct Point {
    pub x: i64,
    pub y: i64,
}

/// A circle given by its center and radius.
#[derive(Clone, Copy, Debug, PartialEq, Eq, Structural)]
pub struct Circle {
    pub center: Point,
    pub radius: i64,
}

/// An axis-aligned rectangle given by its center and half extents.
#[derive(Clone, Copy, Debug, PartialEq, Eq, Structural)]
pub struct Rect {
    pub center: Point,
    pub half_width: i64,
    pub half_height: i64,
}

/// The side of a rectangle that a circle struck.
#[derive(Clone, Copy, Debug, PartialEq, Eq, Structural)]
pub enum Collision {
    Left,
    Right,
    Top,
    Bottom,
}

impl Circle {
    pub open spec fn wf(&self) -> bool {
        self.radius >= 0
    }
}

impl Rect {
    pub open spec fn wf(&self) -> bool {
        self.half_width >= 0 && self.half_height >= 0
    }

    pub open spec fn min_x(&self) -> int {
        self.center.x - self.half_width
    }

    pub open spec fn max_x(&self) -> int {
        self.center.x + self.half_width
    }

    pub open spec fn min_y(&self) -> int {
        self.center.y - self.half_height
    }

    pub open spec fn max_y(&self) -> int {
        self.center.y + self.half_height
    }

    /// Whether the point lies in the closed rectangle.
    pub open spec fn contains(&self, x: int, y: int) -> bool {
        self.min_x() <= x <= self.max_x() && self.min_y() <= y <= self.max_y()
    }
}

impl Circle {
    /// Whether the point lies in the closed disc.
    pub open spec fn contains(&self, x: int, y: int) -> bool {
        (x - self.center.x) * (x - self.center.x) + (y - self.center.y) * (y - self.center.y)
            <= self.radius * self.radius
    }
}

pub open spec fn clamp(v: int, lo: int, hi: int) -> int {
    if v < lo {
        lo
    } else if v > hi {
        hi
    } else {
        v
    }
}

pub open spec fn abs(v: int) -> int {
    if v < 0 {
        -v
    } else {
        v
    }
}

/// Horizontal offset from the rectangle's closest point to the circle's center.
pub open spec fn offset_x(ball: Circle, wall: Rect) -> int {
    ball.center.x - clamp(ball.center.x as int, wall.min_x(), wall.max_x())
}

/// Vertical offset from the rectangle's closest point to the circle's center.
pub open spec fn offset_y(ball: Circle, wall: Rect) -> int {
    ball.center.y - clamp(ball.center.y as int, wall.min_y(), wall.max_y())
}

/// The circle and the rectangle share a point: the rectangle's point closest to
/// the center lies within the radius.
pub open spec fn intersects(ball: Circle, wall: Rect) -> bool {
    let ox = offset_x(ball, wall);
    let oy = offset_y(ball, wall);
    ox * ox + oy * oy <= ball.radius * ball.radius
}

/// The struck side by the offset: the larger component decides, a tie goes to
/// the vertical sides.
pub open spec fn side_of_offset(ox: int, oy: int) -> Collision {
    if abs(ox) > abs(oy) {
        if ox < 0 {
            Collision::Left
        } else {
            Collision::Right
        }
    } else if oy > 0 {
        Collision::Top
    } else {
        Collision::Bottom
    }
}

pub open spec fn collision_of(ball: Circle, wall: Rect) -> Option<Collision> {
    if intersects(ball, wall) {
        Some(side_of_offset(offset_x(ball, wall), offset_y(ball, wall)))
    } else {
        None
    }
}

fn clamp_i128(v: i128, lo: i128, hi: i128) -> (r: i128)
    requires
        lo <= hi,
    ensures
        r == clamp(v as int, lo as int, hi as int),
{
    if v < lo {
        lo
    } else if v > hi {
        hi
    } else {
        v
    }
}

/// Classifies the side of `wall` struck by `ball`, or `None` when they do not
/// intersect.
pub fn collide_with_side(ball: Circle, wall: Rect) -> (r: Option<Collision>)
    requires
        ball.wf(),
        wall.wf(),
    ensures
        r == collision_of(ball, wall),
        !intersects(ball, wall) ==> r is None,
{
    let cx = ball.center.x as i128;
    let cy = ball.center.y as i128;
    let rx = wall.center.x as i128;
    let ry = wall.center.y as i128;
    let closest_x = clamp_i128(cx, rx - wall.half_width as i128, rx + wall.half_width as i128);
    let closest_y = clamp_i128(cy, ry - wall.half_height as i128, ry + wall.half_height as i128);
    let ox = cx - closest_x;
    let oy = cy - closest_y;
    let ax = if ox < 0 { -ox } else { ox };
    let ay = if oy < 0 { -oy } else { oy };
    let radius = ball.radius as i128;
    proof {
        assert(ox == offset_x(ball, wall));
        assert(oy == offset_y(ball, wall));
    }
    if ax > radius || ay > radius {
        proof {
            lemma_square_exceeds(ox as int, oy as int, radius as int);
        }
        return None;
    }
    proof {
        lemma_squares_bounded(ox as int, oy as int, radius as int);
    }
    if ox * ox + oy * oy > radius * radius {
        return None;
    }
    let side = if ax > ay {
        if ox < 0 {
            Collision::Left
        } else {
            Collision::Right
        }
    } else if oy > 0 {
        Collision::Top
    } else {
        Collision::Bottom
    };
    Some(side)
}

/// A circle and a rectangle that share no point are never classified as a
/// collision.
pub proof fn disjoint_shapes_never_collide(ball: Circle, wall: Rect)
    requires
        ball.wf(),
        wall.wf(),
        forall|x: int, y: int| #[trigger] wall.contains(x, y) ==> !ball.contains(x, y),
    ensures
        collision_of(ball, wall) is None,
{
    let px = clamp(ball.center.x as int, wall.min_x(), wall.max_x());
    let py = clamp(ball.center.y as int, wall.min_y(), wall.max_y());
    assert(wall.contains(px, py));
    let ox = offset_x(ball, wall);
    let oy = offset_y(ball, wall);
    assert((px - ball.center.x) * (px - ball.center.x) == ox * ox) by (nonlinear_arith)
        requires
            ox == ball.center.x - px,
    ;
    assert((py - ball.center.y) * (py - ball.center.y) == oy * oy) by (nonlinear_arith)
        requires
            oy == ball.center.y - py,
    ;
}

/// When a circle and a rectangle intersect, the struck side is `Left` exactly
/// when the horizontal offset outweighs the vertical one and the circle's
/// center lies left of the rectangle.
pub proof fn left_hit_classification(ball: Circle, wall: Rect)
    requires
        ball.wf(),
        wall.wf(),
        intersects(ball, wall),
    ensures
        collision_of(ball, wall) == Some(Collision::Left) <==> (abs(offset_x(ball, wall)) > abs(
            offset_y(ball, wall),
        ) && ball.center.x < wall.min_x()),
{
}

proof fn lemma_square_exceeds(ox: int, oy: int, r: int)
    requires
        r >= 0,
        abs(ox) > r || abs(oy) > r,
    ensures
        ox * ox + oy * oy > r * r,
{
    assert(ox * ox + oy * oy > r * r) by (nonlinear_arith)
        requires
            r >= 0,
            ox > r || -ox > r || oy > r || -oy > r,
    ;
}

proof fn lemma_squares_bounded(ox: int, oy: int, r: int)
    requires
        0 <= r <= i64::MAX,
        abs(ox) <= r,
        abs(oy) <= r,
    ensures
        0 <= ox * ox <= r * r,
        0 <= oy * oy <= r * r,
        r * r <= 0x3FFF_FFFF_FFFF_FFFF_0000_0000_0000_0001,
{
    assert(0 <= ox * ox <= r * r && 0 <= oy * oy <= r * r && r * r
        <= 0x3FFF_FFFF_FFFF_FFFF_0000_0000_0000_0001)
        by (nonlinear_arith)
        requires
            0 <= r <= i64::MAX,
            -r <= ox <= r,
            -r <= oy <= r,
    ;
}

} // verus!
