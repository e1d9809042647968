use vstd::prelude::*;

use crate::config::{HEIGHT, THICKNESS, WIDTH};
use crate::geometry::{Point, Rect};

verus! {

/// One of the two halves of the field, each with a paddle and a goal.
#[derive(Clone, Copy, Debug, PartialEq, Eq, Structural)]
pub enum Side {
    Left,
    Right,
}

/// Marks a collider as a goal: entering it scores for the other side.
#[derive(Clone, Copy, Debug, PartialEq, Eq, Structural)]
pub struct Goal {
    pub side: Side,
}

/// The ball entered the goal of the given side.
#[derive(Clone, Copy, Debug, PartialEq, Eq, Structural)]
pub struct GoalEvent(pub Side);

/// A rectangle the ball is tested against each tick: a wall, a paddle, or a
/// goal when `goal` is set.
#[derive(Clone, Copy, Debug, PartialEq, Eq, Structural)]
pub struct Collider {
    pub rect: Rect,
    pub goal: Option<Goal>,
}

impl Collider {
    pub open spec fn wf(&self) -> bool {
        self.rect.half_width > 0 && self.rect.half_height > 0
    }

    pub open spec fn wall_spec(location: WallLocation) -> Collider {
        Collider { rect: location.rect_spec(), goal: None }
    }

    pub open spec fn goal_spec(location: WallLocation, side: Side) -> Collider {
        Collider { rect: location.rect_spec(), goal: Some(Goal { side }) }
    }

    /// A reflecting wall along the given edge of the play area.
    pub fn wall(location: WallLocation) -> (r: Collider)
        ensures
            r == Collider::wall_spec(location),
            r.wf(),
    {
        Collider { rect: location.rect(), goal: None }
    }

    /// A goal along the given edge of the play area, scoring against `side`.
    pub fn goal(location: WallLocation, side: Side) -> (r: Collider)
        ensures
            r == Collider::goal_spec(location, side),
            r.wf(),
    {
        Collider { rect: location.rect(), goal: Some(Goal { side }) }
    }
}

/// The four edges of the play area.
#[derive(Clone, Copy, Debug, PartialEq, Eq, Structural)]
pub enum WallLocation {
    Top,
    Bottom,
    Left,
    Right,
}

impl WallLocation {
    /// Center of the edge's rectangle, just outside the play area.
    pub open spec fn position_spec(self) -> Point {
        let offset = THICKNESS / 2;
        match self {
            WallLocation::Top => Point { x: 0, y: (HEIGHT / 2 + offset) as i64 },
            WallLocation::Bottom => Point { x: 0, y: (-(HEIGHT / 2) - offset) as i64 },
            WallLocation::Left => Point { x: (-(WIDTH / 2) - offset) as i64, y: 0 },
            WallLocation::Right => Point { x: (WIDTH / 2 + offset) as i64, y: 0 },
        }
    }

    /// Full width and height of the edge's rectangle.
    pub open spec fn size_spec(self) -> (i64, i64) {
        match self {
            WallLocation::Top | WallLocation::Bottom => ((WIDTH + THICKNESS * 2) as i64, THICKNESS),
            WallLocation::Left | WallLocation::Right => (THICKNESS, HEIGHT),
        }
    }

    pub open spec fn rect_spec(self) -> Rect {
        Rect {
            center: self.position_spec(),
            half_width: (self.size_spec().0 / 2) as i64,
            half_height: (self.size_spec().1 / 2) as i64,
        }
    }

    pub fn position(&self) -> (r: Point)
        ensures
            r == self.position_spec(),
    {
        let offset = THICKNESS / 2;
        match self {
            WallLocation::Top => Point { x: 0, y: HEIGHT / 2 + offset },
            WallLocation::Bottom => Point { x: 0, y: -(HEIGHT / 2) - offset },
            WallLocation::Left => Point { x: -(WIDTH / 2) - offset, y: 0 },
            WallLocation::Right => Point { x: WIDTH / 2 + offset, y: 0 },
        }
    }

    pub fn size(&self) -> (r: (i64, i64))
        ensures
            r == self.size_spec(),
    {
        match self {
            WallLocation::Top | WallLocation::Bottom => (WIDTH + THICKNESS * 2, THICKNESS),
            WallLocation::Left | WallLocation::Right => (THICKNESS, HEIGHT),
        }
    }

    pub fn rect(&self) -> (r: Rect)
        ensures
            r == self.rect_spec(),
            r.half_width > 0 && r.half_height > 0,
    {
        let size = self.size();
        Rect { center: self.position(), half_width: size.0 / 2, half_height: size.1 / 2 }
    }
}

/// The fixed colliders around the play area: reflecting walls at the top and
/// bottom, goals at the right and left.
pub open spec fn arena_spec() -> Seq<Collider> {
    seq![
        Collider::wall_spec(WallLocation::Top),
        Collider::wall_spec(WallLocation::Bottom),
        Collider::goal_spec(WallLocation::Right, Side::Right),
        Collider::goal_spec(WallLocation::Left, Side::Left),
    ]
}

/// Builds the colliders around the play area.
pub fn spawn_walls() -> (r: Vec<Collider>)
    ensures
        r@ == arena_spec(),
        forall|i: int| 0 <= i < r@.len() ==> (#[trigger] r@[i]).wf(),
{
    let mut walls: Vec<Collider> = Vec::new();
    walls.push(Collider::wall(WallLocation::Top));
    walls.push(Collider::wall(WallLocation::Bottom));
    walls.push(Collider::goal(WallLocation::Right, Side::Right));
    walls.push(Collider::goal(WallLocation::Left, Side::Left));
    assert(walls@ =~= arena_spec());
    walls
}

} // verus!
