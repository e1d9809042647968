use vstd::prelude::*;

verus! {

/// Nanounits in one world unit.
pub const UNIT: i64 = 1_000_000_000;

/// Length of a unit direction vector: directions are kept in thousandths.
pub const DIR_SCALE: i64 = 1000;

/// Microseconds in one second.
pub const SECOND: u64 = 1_000_000;

/// Width of the play area.
pub const WIDTH: i64 = 600 * UNIT;

/// Height of the play area.
pub const HEIGHT: i64 = 400 * UNIT;

/// Thickness of the walls and goals around the play area.
pub const THICKNESS: i64 = 20 * UNIT;

/// Delay before the ball is served, in microseconds.
pub const TIME_TO_SERVE: u64 = SECOND;

} // verus!
