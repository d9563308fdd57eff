# kinetic_game

The rules of a small first-person physics game, verified with Verus.

- `src/` is the library: the game and menu states, the pause menu's buttons and
  views, movement and grappling decisions, ground tagging and camera cleanup on
  the map, and which projectiles explode on contact. Entities are handled as
  their 64-bit identifiers; the set of exploding projectiles is kept in the
  engine's own hash set.
- `app/` is the Bevy program around it: plugins, systems, spawning, ray casts
  against the physics world, and all floating-point vector arithmetic.
- `tests/` runs the library on concrete inputs.
