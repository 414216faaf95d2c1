# orbital_sandbox

A small orbital puzzle: the player places planets, stars and black holes,
launches a ship and tries to bend its path into a target zone.

- `src/` is the verified library: the game state and its transitions
  (launch, reset, next level, tool selection and body placement, the verdict
  of a flight frame), the level table, and the sidebar texts, with their
  decimal formatting. `src/laws.rs` states the properties that span these
  operations.
- `app/` is the Bevy front end: rendering, input, the ECS systems and the
  floating-point flight integration (velocity Verlet under point-mass
  gravity). It measures what the rules need (collisions, the target zone,
  leaving the field, which placed body is under the eraser) and hands the
  library plain values.
- `tests/` runs the library on concrete values.
