//! Decision logic of the mob physics systems: which damping, gravity and
//! swim impulse an entity receives each tick, with every physical quantity
//! stated exactly in thousandths of a block (per tick, or per tick squared).
pub mod constants;
pub mod damping;
pub mod fluid;
pub mod gravity;
pub mod laws;
pub mod sampling;
pub mod swim;
pub mod systems;
