# openlogi-presenter

Verified decision logic for the Logitech Spotlight presenter highlight.

- `src/presenter.rs` — rising-edge click detection over plain HID mouse reports, with laws over whole runs of reports.
- `src/highlight.rs` — the generation-stamped on/off highlight state and what a long-polling observer is answered.
- `src/binding.rs`, `src/plan.rs` — the bindings and capture plans the watcher reads, and which tap they ask for.
- `src/supervisor.rs` — which tap the watcher stops and starts as plans change and taps end.
- `src/tap.rs` — which enumerated HID node the tap opens.
- `src/diag.rs` — the `diag presenter` command's arguments and printed state.
- `app/` — the async HID read loop, the watcher task, the long-poll wait and the CLI command, each calling into the library for every decision.
