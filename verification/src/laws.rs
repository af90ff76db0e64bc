use vstd::prelude::*;

use crate::constants::{STOP_THRESHOLD_MILLI, SUBMERGED_GRAVITY_DIVISOR, SWIM_UP_FORCE_MILLI};
use crate::damping::{spec_damping_for, spec_fluid_drag, spec_friction_damping, Damping};
use crate::fluid::{spec_fluid_of_block, Fluid};
use crate::gravity::{spec_gravity_for, spec_samples_submersion, Gravity};
use crate::sampling::{spec_center_block, spec_gravity_sample, BlockPos};
use crate::swim::spec_swims_up;
use crate::systems::{spec_drag_system_applies, spec_friction_system_applies};

verus! {

/// Lava is more viscous than water: its drag multiplier is smaller, so it removes
/// more velocity each tick.
pub proof fn lava_damps_harder_than_water()
    ensures
        Fluid::Lava.spec_drag_milli() < Fluid::Water.spec_drag_milli(),
{
}

/// Every damping, in a fluid or out of one, multiplies each velocity component by a
/// factor strictly between zero and one: the multiplication alone slows a component
/// without bringing it to zero or reversing its sign. (Outside fluids, components
/// below the stop threshold are zeroed afterwards; see `spec_zeroes_small_velocity`.)
pub proof fn damping_slows_without_reversing(d: Damping)
    ensures
        0 < d.spec_horizontal_milli() < 1000,
        0 < d.spec_vertical_milli() < 1000,
{
}

/// An entity standing on the ground feels no gravity, whatever its markers and
/// whatever surrounds it.
pub proof fn grounded_entities_feel_no_gravity(has_water_drag: bool, center_fluid: Option<Fluid>)
    ensures
        spec_gravity_for(true, has_water_drag, center_fluid) == Gravity::Off,
        !spec_samples_submersion(true, has_water_drag),
{
}

/// No passive force pushes an entity up: gravity never accelerates upward, and an
/// airborne entity always accelerates downward, submerged or not. Only the swim
/// behaviour adds upward velocity.
pub proof fn only_swimming_pushes_up(
    g: Gravity,
    has_water_drag: bool,
    center_fluid: Option<Fluid>,
)
    ensures
        g.spec_acceleration_y_milli() <= 0,
        spec_gravity_for(false, has_water_drag, center_fluid).spec_acceleration_y_milli() < 0,
        SWIM_UP_FORCE_MILLI > 0,
{
}

/// A submerged entity is not weightless: it feels normal gravity divided by the
/// submerged divisor, which still pulls down, more weakly than normal gravity.
pub proof fn submerged_gravity_is_a_fraction_of_gravity()
    ensures
        Gravity::Reduced.spec_acceleration_y_milli() * SUBMERGED_GRAVITY_DIVISOR
            == Gravity::Full.spec_acceleration_y_milli(),
        Gravity::Full.spec_acceleration_y_milli() < Gravity::Reduced.spec_acceleration_y_milli()
            < 0,
{
}

/// The gravity, drag and swim-to-surface systems agree on where "in water" begins:
/// given the same sampled block, an airborne entity with the water-drag marker gets
/// the reduced gravity exactly when a floating mob there swims up, and exactly when
/// the drag system applies water drag to it.
pub proof fn systems_agree_on_submersion(
    center_fluid: Option<Fluid>,
    has_lava_drag: bool,
    on_ground: bool,
)
    ensures
        (spec_gravity_for(false, true, center_fluid) == Gravity::Reduced) == spec_swims_up(
            center_fluid,
        ),
        (spec_damping_for(center_fluid, true, has_lava_drag, on_ground) == Damping::FluidDrag(
            Fluid::Water,
        )) == spec_swims_up(center_fluid),
{
}

/// The drag system gives an entity that is not in a fluid it has a marker for exactly
/// the friction the friction system gives an entity without markers.
pub proof fn drag_falls_back_to_friction(
    center_fluid: Option<Fluid>,
    has_water_drag: bool,
    has_lava_drag: bool,
    on_ground: bool,
)
    requires
        spec_fluid_drag(center_fluid, has_water_drag, has_lava_drag) is None,
    ensures
        spec_damping_for(center_fluid, has_water_drag, has_lava_drag, on_ground)
            == spec_friction_damping(on_ground),
{
}

/// The drag system applies a fluid's drag only to an entity in that fluid that carries
/// that fluid's marker.
pub proof fn fluid_drag_needs_fluid_and_marker(
    center_fluid: Option<Fluid>,
    has_water_drag: bool,
    has_lava_drag: bool,
    on_ground: bool,
    f: Fluid,
)
    ensures
        (spec_damping_for(center_fluid, has_water_drag, has_lava_drag, on_ground)
            == Damping::FluidDrag(f)) == (center_fluid == Some(f) && match f {
            Fluid::Water => has_water_drag,
            Fluid::Lava => has_lava_drag,
        }),
{
}

/// A submerged entity keeps sinking under fluid drag: the downward velocity that
/// reduced gravity adds survives the drag of either fluid, because fluid drag never
/// zeroes small components. In water that velocity (reduced gravity times water drag)
/// is smaller than the stop threshold, so zeroing there would hold the entity still.
pub proof fn submerged_entities_keep_sinking(f: Fluid)
    ensures
        !Damping::FluidDrag(f).spec_zeroes_small_velocity(),
        Gravity::Reduced.spec_acceleration_y_milli() * f.spec_drag_milli() < 0,
        -(Gravity::Reduced.spec_acceleration_y_milli() * Fluid::Water.spec_drag_milli())
            < STOP_THRESHOLD_MILLI * 1000,
{
    assert(Gravity::Reduced.spec_acceleration_y_milli() == -5);
    assert(Fluid::Water.spec_drag_milli() == 800);
    assert(Fluid::Lava.spec_drag_milli() == 500);
    assert(-5 * 800int == -4000) by (nonlinear_arith);
    assert(-5 * 500int == -2500) by (nonlinear_arith);
}

/// Whenever an entity's hitbox is known, the gravity system checks submersion at the
/// very block where the drag and swim-to-surface systems sample: its body centre. So
/// no band remains at the surface where one system sees water and another does not.
pub proof fn systems_sample_the_same_block(feet: BlockPos, center_y: i32)
    ensures
        spec_gravity_sample(feet, Some(center_y)) == spec_center_block(feet, center_y),
{
}

/// Friction is never applied twice: no entity is damped by both the friction system
/// and the drag system in one tick, and every entity that feels gravity is damped by
/// exactly one of them.
pub proof fn each_entity_is_damped_once(
    has_gravity: bool,
    has_water_drag: bool,
    has_lava_drag: bool,
)
    ensures
        !(spec_friction_system_applies(has_gravity, has_water_drag, has_lava_drag)
            && spec_drag_system_applies(has_water_drag, has_lava_drag)),
        has_gravity ==> (spec_friction_system_applies(has_gravity, has_water_drag, has_lava_drag)
            || spec_drag_system_applies(has_water_drag, has_lava_drag)),
{
}

/// A block holds water exactly when its identifier is `water` or `minecraft:water`,
/// lava exactly when it is `lava` or `minecraft:lava`, and no fluid for any other
/// identifier.
pub proof fn fluid_of_block_reads_the_identifier(name: Seq<char>)
    ensures
        (spec_fluid_of_block(name) == Some(Fluid::Water)) == (name == "water"@ || name
            == "minecraft:water"@),
        (spec_fluid_of_block(name) == Some(Fluid::Lava)) == (name == "lava"@ || name
            == "minecraft:lava"@),
        (spec_fluid_of_block(name) is None) == (name != "water"@ && name != "minecraft:water"@
            && name != "lava"@ && name != "minecraft:lava"@),
{
    reveal_strlit("water");
    reveal_strlit("lava");
    reveal_strlit("minecraft:");
    reveal_strlit("minecraft:water");
    reveal_strlit("minecraft:lava");
    assert("minecraft:water"@ =~= "minecraft:"@ + "water"@);
    assert("minecraft:lava"@ =~= "minecraft:"@ + "lava"@);
}

/// The multipliers of each damping: a fluid's drag scales every component alike,
/// 0.8 in water and 0.5 in lava; outside fluids the horizontal components are scaled
/// by 0.6 on the ground and 0.91 in the air, and the vertical one by 0.98.
pub proof fn damping_multipliers(d: Damping, f: Fluid)
    ensures
        Damping::FluidDrag(f).spec_vertical_milli() == Damping::FluidDrag(f).spec_horizontal_milli(),
        Damping::FluidDrag(f).spec_vertical_milli() == f.spec_drag_milli(),
        Fluid::Water.spec_drag_milli() == 800,
        Fluid::Lava.spec_drag_milli() == 500,
        Damping::FluidDrag(Fluid::Water).spec_vertical_milli() == 800,
        Damping::FluidDrag(Fluid::Lava).spec_vertical_milli() == 500,
        Damping::FluidDrag(Fluid::Water).spec_horizontal_milli() == 800,
        Damping::FluidDrag(Fluid::Lava).spec_horizontal_milli() == 500,
        Damping::GroundFriction.spec_horizontal_milli() == 600,
        Damping::AirFriction.spec_horizontal_milli() == 910,
        Damping::GroundFriction.spec_vertical_milli() == 980,
        Damping::AirFriction.spec_vertical_milli() == 980,
        d.spec_zeroes_small_velocity() == !(d is FluidDrag),
{
}

/// The damping the drag system chooses: a fluid's drag exactly when the body centre is
/// in that fluid and the entity carries that fluid's marker; otherwise ground friction
/// on the ground and air friction in the air.
pub proof fn drag_system_chooses_by_fluid_and_marker(
    center_fluid: Option<Fluid>,
    has_water_drag: bool,
    has_lava_drag: bool,
    on_ground: bool,
)
    ensures
        (spec_fluid_drag(center_fluid, has_water_drag, has_lava_drag) == Some(Fluid::Water)) == (
        center_fluid == Some(Fluid::Water) && has_water_drag),
        (spec_fluid_drag(center_fluid, has_water_drag, has_lava_drag) == Some(Fluid::Lava)) == (
        center_fluid == Some(Fluid::Lava) && has_lava_drag),
        (spec_damping_for(center_fluid, has_water_drag, has_lava_drag, on_ground)
            == Damping::FluidDrag(Fluid::Water)) == (center_fluid == Some(Fluid::Water)
            && has_water_drag),
        (spec_damping_for(center_fluid, has_water_drag, has_lava_drag, on_ground)
            == Damping::FluidDrag(Fluid::Lava)) == (center_fluid == Some(Fluid::Lava)
            && has_lava_drag),
        !(center_fluid == Some(Fluid::Water) && has_water_drag) && !(center_fluid == Some(
            Fluid::Lava,
        ) && has_lava_drag) ==> spec_damping_for(
            center_fluid,
            has_water_drag,
            has_lava_drag,
            on_ground,
        ) == (if on_ground {
            Damping::GroundFriction
        } else {
            Damping::AirFriction
        }),
        on_ground ==> spec_friction_damping(on_ground) == Damping::GroundFriction,
        !on_ground ==> spec_friction_damping(on_ground) == Damping::AirFriction,
{
}

/// The markers decide the damping system: the drag system takes every entity carrying a
/// water-drag or lava-drag marker, and the friction system takes exactly the entities
/// that feel gravity and carry neither.
pub proof fn markers_decide_the_damping_system(
    has_gravity: bool,
    has_water_drag: bool,
    has_lava_drag: bool,
)
    ensures
        spec_drag_system_applies(has_water_drag, has_lava_drag) == (has_water_drag
            || has_lava_drag),
        spec_friction_system_applies(has_gravity, has_water_drag, has_lava_drag) == (has_gravity
            && !has_water_drag && !has_lava_drag),
        (has_water_drag || has_lava_drag) ==> !spec_friction_system_applies(
            has_gravity,
            has_water_drag,
            has_lava_drag,
        ),
{
}

/// The centre block lies in the column of the feet block, at exactly the given centre
/// height; gravity samples there when the centre height is known and at the feet
/// otherwise.
pub proof fn sample_blocks_keep_column_and_height(feet: BlockPos, center_y: i32)
    ensures
        spec_center_block(feet, center_y).x == feet.x,
        spec_center_block(feet, center_y).y == center_y,
        spec_center_block(feet, center_y).z == feet.z,
        spec_gravity_sample(feet, None) == feet,
        spec_gravity_sample(feet, Some(center_y)).x == feet.x,
        spec_gravity_sample(feet, Some(center_y)).y == center_y,
        spec_gravity_sample(feet, Some(center_y)).z == feet.z,
{
}

/// The gravity of one tick: none on the ground; the reduced pull (-0.005) exactly for an
/// airborne entity with the water-drag marker whose sampled block is water; normal
/// gravity (-0.08) for every other airborne entity. The block is sampled exactly for
/// airborne entities with the water-drag marker.
pub proof fn gravity_choice(grounded: bool, has_water_drag: bool, center_fluid: Option<Fluid>)
    ensures
        grounded ==> spec_gravity_for(grounded, has_water_drag, center_fluid) == Gravity::Off,
        (spec_gravity_for(grounded, has_water_drag, center_fluid) == Gravity::Reduced) == (
        !grounded && has_water_drag && center_fluid == Some(Fluid::Water)),
        (spec_gravity_for(grounded, has_water_drag, center_fluid) == Gravity::Full) == (!grounded
            && !(has_water_drag && center_fluid == Some(Fluid::Water))),
        Gravity::Off.spec_acceleration_y_milli() == 0,
        Gravity::Full.spec_acceleration_y_milli() == -80,
        Gravity::Reduced.spec_acceleration_y_milli() == -5,
        spec_samples_submersion(grounded, has_water_drag) == (!grounded && has_water_drag),
{
}

/// A floating mob swims up exactly when the block at its body centre is water.
pub proof fn swimming_needs_water(center_fluid: Option<Fluid>)
    ensures
        spec_swims_up(center_fluid) == (center_fluid == Some(Fluid::Water)),
{
}

} // verus!
