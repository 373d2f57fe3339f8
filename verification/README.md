# device-envoy-cyd-starter, verified core

The portable logic of the CYD starter, written in Verus and proved against
its contracts:

- `src/game.rs`: the Snake rules engine. `GameView` is the model of a game,
  `tick_outcome`, `steered`, `toggled`, `initial_game` and `restarted_game`
  say what each operation does to it, and the public proof functions state the
  rules' laws (every reachable game is valid, reversing is ignored, a stopped
  game stays put, the score only grows by eating, ...).
- `src/app.rs`: the paint book's decisions, as a step function from the book's
  state and one input to the next state and an action for the platform.
- `src/persistence.rs`: the high score.
- `src/geometry.rs`: screen points, sizes and rectangles.

`app/` is the unverified glue that runs the paint book on a Device Envoy CYD
and keeps the page and the high score in flash.
