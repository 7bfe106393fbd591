# platformer

Gameplay rules of a small 2D platformer, verified with Verus.

- `src/` is the library: weapon inventories and cycling, fire requests and the
  fire-rate gate, projectile caps and collision layers, melee candidates, beam
  on/off, re-equipping, pause and debug-UI controls, cannon hits and custom
  gravity bookkeeping. Each public function carries a contract; the laws of the
  game (cycling round trips, toggles that undo themselves, projectiles that
  spare their own side, swings that spare the wielder and its team, settled
  re-equipping) are proof functions beside the code they speak of.
- `app/` is the game binary on the Bevy engine: it reads the world, does the
  floating-point geometry and timers, and applies what the library decides.
- `tests/` runs the library on concrete values.
