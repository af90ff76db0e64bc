use vstd::prelude::*;

verus! {

/// The friction system damps entities that feel gravity and carry no fluid-drag marker.
pub open spec fn spec_friction_system_applies(
    has_gravity: bool,
    has_water_drag: bool,
    has_lava_drag: bool,
) -> bool {
    has_gravity && !has_water_drag && !has_lava_drag
}

/// The drag system damps entities that carry a water-drag or a lava-drag marker.
pub open spec fn spec_drag_system_applies(has_water_drag: bool, has_lava_drag: bool) -> bool {
    has_water_drag || has_lava_drag
}

/// Whether the friction system damps an entity with these markers: it must feel gravity
/// and carry neither fluid-drag marker, which leaves it to the drag system.
pub fn friction_system_applies(has_gravity: bool, has_water_drag: bool, has_lava_drag: bool) -> (b:
    bool)
    ensures
        b == spec_friction_system_applies(has_gravity, has_water_drag, has_lava_drag),
        b == (has_gravity && !has_water_drag && !has_lava_drag),
{
    has_gravity && !has_water_drag && !has_lava_drag
}

/// Whether the drag system damps an entity with these markers: it must carry a
/// water-drag or a lava-drag marker.
pub fn drag_system_applies(has_water_drag: bool, has_lava_drag: bool) -> (b: bool)
    ensures
        b == spec_drag_system_applies(has_water_drag, has_lava_drag),
        b == (has_water_drag || has_lava_drag),
{
    has_water_drag || has_lava_drag
}

} // verus!
