# mob_physics

The decision logic of a game server's mob physics, verified with Verus.

- `src/` (verified): which fluid a block holds, which damping (fluid drag,
  ground or air friction) and which gravity (none, full, reduced) an entity gets
  each tick, which system damps which entity, whether a floating mob swims up,
  and where each system samples the
  world. Every physical quantity is stated exactly in thousandths.
  `src/laws.rs` proves the properties that hold across these decisions.
- `app/` (unverified): the ECS systems, which read components and chunks, call
  the library, and do the floating-point velocity arithmetic.
