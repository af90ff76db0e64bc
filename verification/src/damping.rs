use vstd::prelude::*;

use crate::constants::{AIR_DRAG_MILLI, AIR_FRICTION_MILLI, GROUND_FRICTION_MILLI};
use crate::fluid::Fluid;

verus! {

/// How an entity's velocity is damped in one tick.
#[derive(Clone, Copy, PartialEq, Eq, Debug, Structural)]
pub enum Damping {
    /// Submerged: every component is multiplied by the fluid's drag.
    FluidDrag(Fluid),
    /// On the ground: ground friction horizontally, air drag vertically.
    GroundFriction,
    /// In the air: air friction horizontally, air drag vertically.
    AirFriction,
}

impl Damping {
    /// Multiplier of the horizontal components, in thousandths.
    pub open spec fn spec_horizontal_milli(self) -> int {
        match self {
            Damping::FluidDrag(f) => f.spec_drag_milli(),
            Damping::GroundFriction => GROUND_FRICTION_MILLI as int,
            Damping::AirFriction => AIR_FRICTION_MILLI as int,
        }
    }

    /// Multiplier of the vertical component, in thousandths.
    pub open spec fn spec_vertical_milli(self) -> int {
        match self {
            Damping::FluidDrag(f) => f.spec_drag_milli(),
            Damping::GroundFriction => AIR_DRAG_MILLI as int,
            Damping::AirFriction => AIR_DRAG_MILLI as int,
        }
    }

    /// Whether components below the stop threshold are set to zero afterwards:
    /// outside fluids they are; fluid drag damps enough on its own, and zeroing there
    /// would stop a slowly sinking entity.
    pub open spec fn spec_zeroes_small_velocity(self) -> bool {
        !(self is FluidDrag)
    }

    /// Multiplier of the horizontal (x and z) velocity, in thousandths.
    pub fn horizontal_milli(self) -> (m: u32)
        ensures
            m == self.spec_horizontal_milli(),
            self == Damping::FluidDrag(Fluid::Water) ==> m == 800,
            self == Damping::FluidDrag(Fluid::Lava) ==> m == 500,
            self == Damping::GroundFriction ==> m == 600,
            self == Damping::AirFriction ==> m == 910,
    {
        match self {
            Damping::FluidDrag(f) => f.drag_milli(),
            Damping::GroundFriction => GROUND_FRICTION_MILLI,
            Damping::AirFriction => AIR_FRICTION_MILLI,
        }
    }

    /// Multiplier of the vertical (y) velocity, in thousandths.
    pub fn vertical_milli(self) -> (m: u32)
        ensures
            m == self.spec_vertical_milli(),
            self == Damping::FluidDrag(Fluid::Water) ==> m == 800,
            self == Damping::FluidDrag(Fluid::Lava) ==> m == 500,
            self == Damping::GroundFriction ==> m == 980,
            self == Damping::AirFriction ==> m == 980,
    {
        match self {
            Damping::FluidDrag(f) => f.drag_milli(),
            Damping::GroundFriction => AIR_DRAG_MILLI,
            Damping::AirFriction => AIR_DRAG_MILLI,
        }
    }

    /// Whether velocity components below the stop threshold are zeroed after damping.
    pub fn zeroes_small_velocity(self) -> (z: bool)
        ensures
            z == self.spec_zeroes_small_velocity(),
            z == !(self is FluidDrag),
    {
        match self {
            Damping::FluidDrag(_) => false,
            Damping::GroundFriction => true,
            Damping::AirFriction => true,
        }
    }
}

/// The friction of an entity outside fluids: ground friction when it stands on the
/// ground, air friction otherwise.
pub open spec fn spec_friction_damping(on_ground: bool) -> Damping {
    if on_ground {
        Damping::GroundFriction
    } else {
        Damping::AirFriction
    }
}

/// The fluid whose drag applies: water when the sampled block is water and the entity
/// carries the water-drag marker, lava likewise with the lava-drag marker, else none.
pub open spec fn spec_fluid_drag(
    center_fluid: Option<Fluid>,
    has_water_drag: bool,
    has_lava_drag: bool,
) -> Option<Fluid> {
    match center_fluid {
        Some(Fluid::Water) => if has_water_drag {
            Some(Fluid::Water)
        } else {
            None
        },
        Some(Fluid::Lava) => if has_lava_drag {
            Some(Fluid::Lava)
        } else {
            None
        },
        None => None,
    }
}

/// The damping of the drag system: the fluid's drag where one applies, else the
/// normal friction.
pub open spec fn spec_damping_for(
    center_fluid: Option<Fluid>,
    has_water_drag: bool,
    has_lava_drag: bool,
    on_ground: bool,
) -> Damping {
    match spec_fluid_drag(center_fluid, has_water_drag, has_lava_drag) {
        Some(f) => Damping::FluidDrag(f),
        None => spec_friction_damping(on_ground),
    }
}

/// The damping the friction system gives an entity that carries no fluid-drag marker.
pub fn friction_damping(on_ground: bool) -> (d: Damping)
    ensures
        d == spec_friction_damping(on_ground),
        on_ground ==> d == Damping::GroundFriction,
        !on_ground ==> d == Damping::AirFriction,
{
    if on_ground {
        Damping::GroundFriction
    } else {
        Damping::AirFriction
    }
}

/// The fluid whose drag the drag system applies, given the fluid at the entity's body
/// centre and the entity's drag markers.
pub fn fluid_drag(center_fluid: Option<Fluid>, has_water_drag: bool, has_lava_drag: bool) -> (f:
    Option<Fluid>)
    ensures
        f == spec_fluid_drag(center_fluid, has_water_drag, has_lava_drag),
        (f == Some(Fluid::Water)) == (center_fluid == Some(Fluid::Water) && has_water_drag),
        (f == Some(Fluid::Lava)) == (center_fluid == Some(Fluid::Lava) && has_lava_drag),
{
    match center_fluid {
        Some(Fluid::Water) => if has_water_drag {
            Some(Fluid::Water)
        } else {
            None
        },
        Some(Fluid::Lava) => if has_lava_drag {
            Some(Fluid::Lava)
        } else {
            None
        },
        None => None,
    }
}

/// The damping the drag system gives an entity that carries a fluid-drag marker:
/// the drag of the fluid at its body centre when it has that fluid's marker, and
/// the normal ground or air friction otherwise.
pub fn damping_for(
    center_fluid: Option<Fluid>,
    has_water_drag: bool,
    has_lava_drag: bool,
    on_ground: bool,
) -> (d: Damping)
    ensures
        d == spec_damping_for(center_fluid, has_water_drag, has_lava_drag, on_ground),
        (d == Damping::FluidDrag(Fluid::Water)) == (center_fluid == Some(Fluid::Water)
            && has_water_drag),
        (d == Damping::FluidDrag(Fluid::Lava)) == (center_fluid == Some(Fluid::Lava)
            && has_lava_drag),
        !(center_fluid == Some(Fluid::Water) && has_water_drag) && !(center_fluid == Some(
            Fluid::Lava,
        ) && has_lava_drag) ==> d == (if on_ground {
            Damping::GroundFriction
        } else {
            Damping::AirFriction
        }),
{
    match fluid_drag(center_fluid, has_water_drag, has_lava_drag) {
        Some(f) => Damping::FluidDrag(f),
        None => friction_damping(on_ground),
    }
}

} // verus!
