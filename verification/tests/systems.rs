//! One tick of each physics system, run on the library's decisions with the
//! velocity arithmetic done in `f32` as the systems do it.

use mob_physics::constants::{
    AIR_DRAG_MILLI, AIR_FRICTION_MILLI, GRAVITY_ACCELERATION_Y_MILLI, STOP_THRESHOLD_MILLI,
    SUBMERGED_GRAVITY_DIVISOR, SWIM_UP_FORCE_MILLI,
};
use mob_physics::damping::{damping_for, Damping};
use mob_physics::fluid::{fluid_of_block, Fluid};
use mob_physics::gravity::{gravity_for, samples_submersion};
use mob_physics::sampling::{center_block, gravity_sample, BlockPos};
use mob_physics::swim::swims_up;
use mob_physics::systems::{drag_system_applies, friction_system_applies};

fn milli(m: i64) -> f32 {
    m as f32 / 1000.0
}

/// Velocity y after one tick of the gravity system; `center_block` is the block at the
/// sampled point, looked at only when the system samples it.
fn gravity_tick(vel_y: f32, grounded: bool, has_water_drag: bool, center_block: &str) -> f32 {
    let fluid = if samples_submersion(grounded, has_water_drag) {
        fluid_of_block(center_block)
    } else {
        None
    };
    vel_y + milli(gravity_for(grounded, has_water_drag, fluid).acceleration_y_milli() as i64)
}

/// Velocity after one tick of the drag system.
fn drag_tick(vel: [f32; 3], center_block: &str, on_ground: bool) -> [f32; 3] {
    let d = damping_for(fluid_of_block(center_block), true, true, on_ground);
    let h = milli(d.horizontal_milli() as i64);
    let v = milli(d.vertical_milli() as i64);
    let mut out = [vel[0] * h, vel[1] * v, vel[2] * h];
    if d.zeroes_small_velocity() {
        for c in out.iter_mut() {
            if c.abs() < milli(STOP_THRESHOLD_MILLI as i64) {
                *c = 0.0;
            }
        }
    }
    out
}

fn float_tick(vel_y: f32, center_block: &str) -> f32 {
    if swims_up(fluid_of_block(center_block)) {
        vel_y + milli(SWIM_UP_FORCE_MILLI as i64)
    } else {
        vel_y
    }
}

#[test]
fn floats_up_when_submerged() {
    let y = float_tick(0.0, "water");
    assert!((y - 0.04).abs() < 1e-6, "submerged floater should gain upward velocity, got {}", y);
}

#[test]
fn does_not_float_out_of_water() {
    assert_eq!(float_tick(0.0, "air"), 0.0, "a floater out of water should not gain upward velocity");
}

#[test]
fn water_drag_is_applied() {
    let vel = drag_tick([1.0, 1.0, 1.0], "water", false);
    assert!(
        (vel[0] - 0.8).abs() < 1e-6,
        "submerged entity should be slowed by the water drag multiplier"
    );
}

#[test]
fn lava_drag_is_stronger_than_water() {
    let lava = drag_tick([1.0, 1.0, 1.0], "lava", false)[0];
    assert!(
        (lava - 0.5).abs() < 1e-6,
        "submerged entity should be slowed by the lava drag multiplier"
    );
    assert!(lava < drag_tick([1.0, 1.0, 1.0], "water", false)[0], "lava should damp motion harder than water");
}

#[test]
fn test_gravity_application() {
    let y = gravity_tick(0.0, false, false, "air");
    assert!(y < 0.0, "Velocity Y should be negative after gravity application");
}

#[test]
fn test_no_gravity_when_grounded() {
    assert_eq!(gravity_tick(0.0, true, false, "air"), 0.0, "Velocity Y should remain zero when grounded");
}

#[test]
fn test_water_entity_gravity_not_in_water() {
    let y = gravity_tick(0.0, false, true, "air");
    assert!(y < 0.0, "Water entity should have gravity applied when not in water");
}

#[test]
fn test_water_entity_no_gravity_when_grounded() {
    assert_eq!(gravity_tick(0.0, true, true, "water"), 0.0, "Water entity should not have gravity when grounded");
}

#[test]
fn test_water_entity_in_water_reduced_gravity() {
    let y = gravity_tick(0.0, false, true, "water");
    let expected = -0.08f32 * (1.0 / 16.0);
    assert!((y - expected).abs() < 1e-6, "Water entity should sink under reduced gravity ({expected}), got {}", y);
}

#[test]
fn fluid_of_block_names_the_two_fluids() {
    assert_eq!(fluid_of_block("water"), Some(Fluid::Water));
    assert_eq!(fluid_of_block("lava"), Some(Fluid::Lava));
    assert_eq!(fluid_of_block("air"), None);
    assert_eq!(fluid_of_block(""), None);
    assert_eq!(fluid_of_block("wate"), None);
    assert_eq!(fluid_of_block("waterr"), None);
    assert_eq!(fluid_of_block("Lava"), None);
}

#[test]
fn drag_multipliers_are_exact() {
    assert_eq!(Fluid::Water.drag_milli(), 800);
    assert_eq!(Fluid::Lava.drag_milli(), 500);
    assert!(Fluid::Lava.drag_milli() < Fluid::Water.drag_milli());
}

#[test]
fn drag_marker_is_needed_for_fluid_drag() {
    assert_eq!(damping_for(Some(Fluid::Water), false, true, false), Damping::AirFriction);
    assert_eq!(damping_for(Some(Fluid::Lava), true, false, true), Damping::GroundFriction);
    assert_eq!(damping_for(Some(Fluid::Lava), false, true, true), Damping::FluidDrag(Fluid::Lava));
    assert_eq!(damping_for(None, true, true, false), Damping::AirFriction);
}

#[test]
fn friction_outside_fluids_and_stop_threshold() {
    let ground = drag_tick([1.0, 1.0, 0.004], "air", true);
    assert!((ground[0] - 0.6).abs() < 1e-6);
    assert!((ground[1] - 0.98).abs() < 1e-6);
    assert_eq!(ground[2], 0.0);
    let air = drag_tick([1.0, 0.001, 1.0], "stone", false);
    assert!((air[0] - 0.91).abs() < 1e-6);
    assert_eq!(air[1], 0.0);
    assert_eq!(Damping::AirFriction.vertical_milli(), AIR_DRAG_MILLI);
    assert_eq!(Damping::AirFriction.horizontal_milli(), AIR_FRICTION_MILLI);
}

#[test]
fn submerged_entity_keeps_sinking_through_water_drag() {
    let y = gravity_tick(0.0, false, true, "water");
    let after = drag_tick([0.0, y, 0.0], "water", false);
    assert!(after[1] < 0.0);
    assert!((after[1] + 0.004).abs() < 1e-6);
    assert!(after[1].abs() < milli(STOP_THRESHOLD_MILLI as i64));
}

#[test]
fn lava_does_not_reduce_gravity() {
    let y = gravity_tick(0.0, false, true, "lava");
    assert!((y + 0.08).abs() < 1e-6);
    assert!(!swims_up(Some(Fluid::Lava)));
}

#[test]
fn reduced_gravity_is_a_sixteenth() {
    let full = gravity_for(false, false, None).acceleration_y_milli();
    let reduced = gravity_for(false, true, Some(Fluid::Water)).acceleration_y_milli();
    assert_eq!(full, GRAVITY_ACCELERATION_Y_MILLI);
    assert_eq!(reduced * SUBMERGED_GRAVITY_DIVISOR, full);
    assert!(full < reduced && reduced < 0);
}

#[test]
fn submersion_is_sampled_only_when_needed() {
    assert!(samples_submersion(false, true));
    assert!(!samples_submersion(true, true));
    assert!(!samples_submersion(false, false));
    assert!(!samples_submersion(true, false));
}

#[test]
fn namespaced_block_names_are_recognised() {
    assert_eq!(fluid_of_block("minecraft:water"), Some(Fluid::Water));
    assert_eq!(fluid_of_block("minecraft:lava"), Some(Fluid::Lava));
    assert_eq!(fluid_of_block("minecraft:air"), None);
    assert_eq!(fluid_of_block("other:water"), None);
    assert_eq!(fluid_of_block("minecraft:"), None);
}

#[test]
fn sampling_points() {
    let feet = BlockPos { x: 3, y: 64, z: -7 };
    assert_eq!(center_block(feet, 65), BlockPos { x: 3, y: 65, z: -7 });
    assert_eq!(gravity_sample(feet, Some(65)), center_block(feet, 65));
    assert_eq!(gravity_sample(feet, None), feet);
}

#[test]
fn each_entity_is_damped_by_one_system() {
    for &g in &[false, true] {
        for &w in &[false, true] {
            for &l in &[false, true] {
                let friction = friction_system_applies(g, w, l);
                let drag = drag_system_applies(w, l);
                assert!(!(friction && drag));
                if g {
                    assert!(friction || drag);
                }
            }
        }
    }
    assert!(friction_system_applies(true, false, false));
    assert!(!friction_system_applies(false, false, false));
    assert!(!friction_system_applies(true, true, false));
    assert!(drag_system_applies(false, true));
    assert!(!drag_system_applies(false, false));
}
