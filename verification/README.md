# propeller

A MIDI live-coding loop engine: a daemon plays a project (tracks of notes and pitch bends over a
loop of ticks) in a continuous loop, takes project changes at the next bar boundary, runs in
standalone, clock (sends MIDI clock) or sync (follows an external MIDI clock) mode, and is
driven over a Unix socket with single-line JSON requests. A second program, `propeller-clock`,
is a standalone MIDI clock.

## Layout

- `src/` — the verified library (Verus):
  - `domain/` — project model, validation rules, project store with its bar-boundary commit;
  - `loop_engine/` — the loop player as a state machine (`model.rs` states every step as a
    spec function, `player.rs` implements it, `laws.rs` proves its properties), pass building
    and ordering, tick timing;
  - `midi_clock/` — pulse tracking, tempo estimate and the sync receiver's state machine;
  - `clock/` — the standalone clock: output interface, pulse timing, transport state machine,
    request handling, laws;
  - `ipc/` — request handling of the JSON interface, reply texts;
  - `console.rs` — the interactive console's model; `midi.rs` — MIDI messages and encodings;
  - `client.rs`, `socket_path.rs`, `startup_guard.rs`, `text.rs` — small decisions and helpers.
- `tests/` — tests of the library.
- `app/` — the programs around it: command lines, socket servers, the player, clock and sync
  threads that sleep and do the I/O, MIDI ports, logging and terminal UIs. It is invoked as
  `propeller`, or as `propeller-clock` for the standalone clock.
