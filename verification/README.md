# herdr client core, verified

The decision logic of herdr's terminal client, written in Verus and proved
against its contracts:

- `src/geometry.rs` — terminal-cell rectangles.
- `src/state.rs` — the application state the other modules read and update.
- `src/sidebar.rs` — sidebar layout and mouse hit-testing (footer, launcher,
  global menu, dividers, toggles, scrollbars, agent rows, workspace drop slots).
- `src/live_status.rs` — turning an agent's statusLine payload into a live
  status, and refreshing the panes' statuses and titles.
- `src/statusline.rs` — which pane the statusline describes, what it shows, and
  the colored segments of a live status.
- `src/headroom.rs` — lifecycle decisions for the background proxy process.
- `src/protocol.rs`, `src/client_input.rs`, `src/reader.rs` — input events, raw
  byte re-framing, paste-burst coalescing, and the reader loops' decisions.
- `src/json.rs` — decoded JSON documents and reading fields at key paths.
- `src/text.rs` — characters, UTF-8, trimming, decimal digits.

`app/` holds what cannot be verified: process spawning, file and terminal I/O,
floating-point formatting and ratatui drawing. `tests/` exercises
the library on concrete values.
