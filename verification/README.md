# memscan

The decision logic of a terminal memory scanner, verified with Verus.

- `src/app.rs` — the interface state (`App`), its plain-value view
  (`AppView`), the initial state and the accessors.
- `src/keys.rs` — the interface as a state machine: `handle_key` maps a
  state and a key event to the next state and an `Action` for the event
  loop (send a scan request, open a process, exit).
- `src/list.rs` — list selection (`ListState`) and lists of lines (`VList`).
- `src/mem_view.rs` — the layout of the memory-view window.
- `src/text.rs` — editing operations on text fields.
- `src/laws.rs` — properties that hold across states and key sequences.
- `app/` — the terminal side: the shared handle, the event loop that
  performs the actions, and drawing with ratatui.
