# pinball_core

The rules of a pinball table, verified with Verus.

- `src/` is the verified library: the table's integer geometry and layout
  (`constants`, `entities`), the frame countdowns (`countdown`), the ball
  save (`ball_save`), the combo multiplier (`combo`) and the game state
  machine (`state`): launches, nudges and tilt, scoring, drains, ball save
  rescues, game over and the high score. Each operation of the game is
  stated as a step function on `GameView`, and the laws of the game are
  proof functions over those steps.
- `app/` is the floating-point physics (ball motion, collisions, flipper
  swing, shake, launch charge), the per-frame loop that feeds the rules, and
  the `wasm_bindgen` boundary that hands JSON events to the page.
- `tests/` runs the library on concrete games.
