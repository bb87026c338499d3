# coldsonic

A Subsonic music client, built as verified state machines.

- `src/` is the library, verified with Verus: the login screen
  (`screen::login`), the artists screen (`screen::artists`), the main
  screen that hosts it (`screen`), the top-level state that switches from
  one to the other (`root`), the `Action` that a screen answers with, the
  decimal rendering of counts and durations (`decimal`), and where the
  client keeps its files (`config`). Each screen implements the `Screen`
  trait, whose `init` and `update` are proved against the screen's model
  (`init_model`, `update_model`) over views. The properties that span several steps are proof functions beside them.
- `app/` is the iced program around the library: it performs the work the
  state machines ask for (logging in, listing artists, fetching covers),
  reads `credentials.toml`, and draws the screens.
- `tests/` runs the library on concrete values.
