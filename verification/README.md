# judo

A terminal interface for the Jujutsu (`jj`) version control system, built
around a state machine in the Elm style: every key, click, tick and command
outcome becomes an action, one function steps the state, and the commands it
asks for run in the background and report back as actions.

The library (`src/`) is verified with Verus:

- `domain/` — commits, files and graph rows; the lane layout of the revision
  graph; the machine-readable log that `jj log` prints with the template the
  runtime uses.
- `app/` — the state and its invariant, the actions and commands, the key
  maps and key configuration, the mapping of terminal events to actions, the
  reducer and its features (navigation, filters, pop-ups, version control
  intents, command outcomes), the command palette, error hints, the screen
  layout, and the laws of the state machine (`app/laws.rs`).
- `components/` — what the views show: row heights and graph glyphs, the
  footer's hints and how many fit, the diff panel's line kinds, the pop-ups'
  rows and placement.
- `text.rs`, `clock.rs`, `theme.rs` — text helpers, the clock, palettes.

The runtime (`app/`) draws with ratatui, reads the terminal with crossterm,
runs `jj`, watches the repository and stores the recent filters.
