use vstd::prelude::*;

verus! {

/// The integer coordinates of a block in the world.
#[derive(Clone, Copy, PartialEq, Eq, Debug, Structural)]
pub struct BlockPos {
    pub x: i32,
    pub y: i32,
    pub z: i32,
}

/// The block at an entity's body centre: the column of the block at its feet, at the
/// height of the centre of its hitbox.
pub open spec fn spec_center_block(feet: BlockPos, center_y: i32) -> BlockPos {
    BlockPos { x: feet.x, y: center_y, z: feet.z }
}

/// Where the gravity system samples submersion: the body centre when the entity's
/// hitbox is known, the block at its feet otherwise.
pub open spec fn spec_gravity_sample(feet: BlockPos, center_y: Option<i32>) -> BlockPos {
    match center_y {
        Some(y) => spec_center_block(feet, y),
        None => feet,
    }
}

/// The block at an entity's body centre, given the block at its feet and the block
/// height of its hitbox centre. The drag and swim-to-surface systems sample here.
pub fn center_block(feet: BlockPos, center_y: i32) -> (b: BlockPos)
    ensures
        b == spec_center_block(feet, center_y),
        b.x == feet.x,
        b.y == center_y,
        b.z == feet.z,
{
    BlockPos { x: feet.x, y: center_y, z: feet.z }
}

/// The block at which the gravity system checks submersion: the body centre when the
/// hitbox centre height is known (`Some`), else the block at the feet.
pub fn gravity_sample(feet: BlockPos, center_y: Option<i32>) -> (b: BlockPos)
    ensures
        b == spec_gravity_sample(feet, center_y),
        center_y is None ==> b == feet,
        center_y is Some ==> b.x == feet.x && b.y == center_y->0 && b.z == feet.z,
{
    match center_y {
        Some(y) => center_block(feet, y),
        None => feet,
    }
}

} // verus!
