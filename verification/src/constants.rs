use vstd::prelude::*;

verus! {

/// Vertical acceleration of gravity, in thousandths of a block per tick squared.
pub const GRAVITY_ACCELERATION_Y_MILLI: i32 = -80;

/// Fastest downward speed an entity may fall at, in thousandths of a block per tick.
pub const TERMINAL_VELOCITY_Y_MILLI: i32 = -3920;

/// Submerged entities feel gravity divided by this: a fraction of normal gravity
/// still acts on them, so they are not weightless and sink slowly.
pub const SUBMERGED_GRAVITY_DIVISOR: i32 = 16;

/// Vertical acceleration felt while submerged, in thousandths of a block per tick squared:
/// normal gravity divided by `SUBMERGED_GRAVITY_DIVISOR`.
pub const SUBMERGED_GRAVITY_Y_MILLI: i32 = -5;

/// Horizontal velocity multiplier on the ground, in thousandths.
pub const GROUND_FRICTION_MILLI: u32 = 600;

/// Horizontal velocity multiplier in the air, in thousandths.
pub const AIR_FRICTION_MILLI: u32 = 910;

/// Vertical velocity multiplier outside fluids, in thousandths.
pub const AIR_DRAG_MILLI: u32 = 980;

/// Outside fluids, a velocity component whose magnitude is below this many
/// thousandths of a block per tick is set to zero.
pub const STOP_THRESHOLD_MILLI: u32 = 5;

/// Upward velocity, in thousandths of a block per tick, that a floating mob gains
/// while its body centre is in water.
pub const SWIM_UP_FORCE_MILLI: u32 = 40;

} // verus!
