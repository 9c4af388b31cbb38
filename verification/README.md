# oc_bridge

A bridge between a serial-attached controller and host applications
(UDP or WebSocket), with a terminal UI, a background daemon and a small
control protocol. The decision-making parts are written in Verus and proved
against their contracts.

## Layout

- `src/` — the verified library.
  - `serial/cobs.rs`, `codec/` — framing (COBS, raw, text log lines), with
    round-trip laws.
  - `bridge/` — the stream parser, the relay guard, the persistence job
    protocol (encode/decode/validate, legacy mapping), session relay logic,
    rate statistics and connection planning.
  - `control.rs`, `control_binary.rs` — the JSON and binary control protocols:
    request parsing, command planning and responses.
  - `logging/` — log entries, filters, the bounded log store and rotation
    planning for file logs.
  - `app/`, `popup.rs`, `input.rs` — the state of the terminal UI: modes,
    the settings popup, key handling and commands.
  - `ui/` — what each panel shows, computed as plain values.
  - `config.rs`, `service/`, `elevation.rs`, `instance_lock.rs` — settings
    defaults and validation, service unit and script text, platform plans.
  - `buffers.rs`, `text.rs`, `logging/entry.rs` — the few calls into `bytes`,
    `std` and `chrono` whose contracts are trusted.
- `tests/` — tests of the library on concrete values.
- `app/` — the program: argument parsing, file, serial, network and terminal
  I/O, the async loops and the drawing, all driven by the library.
