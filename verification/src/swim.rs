use vstd::prelude::*;

use crate::fluid::Fluid;

verus! {

/// A floating mob swims up exactly when the block at its body centre is water.
pub open spec fn spec_swims_up(center_fluid: Option<Fluid>) -> bool {
    center_fluid == Some(Fluid::Water)
}

/// Whether the swim-to-surface behaviour gives a floating mob its upward impulse this
/// tick: only when its body centre is in water (not in lava, not out of any fluid).
pub fn swims_up(center_fluid: Option<Fluid>) -> (up: bool)
    ensures
        up == spec_swims_up(center_fluid),
        up == (center_fluid == Some(Fluid::Water)),
{
    matches!(center_fluid, Some(Fluid::Water))
}

} // verus!
