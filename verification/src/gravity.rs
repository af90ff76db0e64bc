use vstd::prelude::*;

use crate::constants::{GRAVITY_ACCELERATION_Y_MILLI, SUBMERGED_GRAVITY_Y_MILLI};
use crate::fluid::Fluid;

verus! {

/// The gravity the gravity system applies to an entity in one tick.
#[derive(Clone, Copy, PartialEq, Eq, Debug, Structural)]
pub enum Gravity {
    /// The entity stands on the ground: its velocity is left alone.
    Off,
    /// Normal gravity.
    Full,
    /// The reduced gravity of an entity submerged in water.
    Reduced,
}

impl Gravity {
    /// Vertical acceleration of this gravity, in thousandths of a block per tick squared.
    pub open spec fn spec_acceleration_y_milli(self) -> int {
        match self {
            Gravity::Off => 0,
            Gravity::Full => GRAVITY_ACCELERATION_Y_MILLI as int,
            Gravity::Reduced => SUBMERGED_GRAVITY_Y_MILLI as int,
        }
    }

    /// The vertical velocity, in thousandths of a block per tick, that this gravity
    /// adds in one tick.
    pub fn acceleration_y_milli(self) -> (a: i32)
        ensures
            a == self.spec_acceleration_y_milli(),
            self == Gravity::Off ==> a == 0,
            self == Gravity::Full ==> a == -80,
            self == Gravity::Reduced ==> a == -5,
    {
        match self {
            Gravity::Off => 0,
            Gravity::Full => GRAVITY_ACCELERATION_Y_MILLI,
            Gravity::Reduced => SUBMERGED_GRAVITY_Y_MILLI,
        }
    }
}

/// Whether the gravity system looks at the block at the entity's body centre:
/// only for an airborne entity that carries the water-drag marker.
pub open spec fn spec_samples_submersion(grounded: bool, has_water_drag: bool) -> bool {
    !grounded && has_water_drag
}

/// The gravity of one tick. A grounded entity gets none. An airborne entity with the
/// water-drag marker whose body centre is in water gets the reduced gravity; any
/// other airborne entity falls normally. Lava does not reduce gravity.
pub open spec fn spec_gravity_for(
    grounded: bool,
    has_water_drag: bool,
    center_fluid: Option<Fluid>,
) -> Gravity {
    if grounded {
        Gravity::Off
    } else if has_water_drag && center_fluid == Some(Fluid::Water) {
        Gravity::Reduced
    } else {
        Gravity::Full
    }
}

/// Whether the gravity system needs the block at the entity's body centre to decide:
/// it does for an airborne entity with the water-drag marker, and for no other.
pub fn samples_submersion(grounded: bool, has_water_drag: bool) -> (samples: bool)
    ensures
        samples == spec_samples_submersion(grounded, has_water_drag),
        samples == (!grounded && has_water_drag),
{
    !grounded && has_water_drag
}

/// The gravity an entity receives this tick. `center_fluid` is the fluid at the point
/// where submersion is sampled; it is read only when `samples_submersion` holds.
pub fn gravity_for(grounded: bool, has_water_drag: bool, center_fluid: Option<Fluid>) -> (g:
    Gravity)
    ensures
        g == spec_gravity_for(grounded, has_water_drag, center_fluid),
        grounded ==> g == Gravity::Off,
        (g == Gravity::Reduced) == (!grounded && has_water_drag && center_fluid == Some(
            Fluid::Water,
        )),
        (g == Gravity::Full) == (!grounded && !(has_water_drag && center_fluid == Some(
            Fluid::Water,
        ))),
{
    if grounded {
        Gravity::Off
    } else if has_water_drag && matches!(center_fluid, Some(Fluid::Water)) {
        Gravity::Reduced
    } else {
        Gravity::Full
    }
}

} // verus!
