# open-sessionbar

A desktop-environment-agnostic monitor for OpenCode sessions: `opensessions`
reads the snapshot that the opencode-sessionbar plugin serves on
`127.0.0.1:4098` and renders it for waybar, i3blocks, polybar, eww, tmux,
plain text or JSON, or as a live fullscreen popup.

Layout:

- `src/` — the library, verified with Verus: the snapshot model, every bar
  format (`format/`), the spinner frames and animation settings, the
  command-line reading, the plugin addresses and SSE line reading, the
  installer's reading of `tui.json` and its plans, the steps of `watch`, and
  what the popup shows.
- `app/` — the `opensessions` program around it: HTTP/SSE with reqwest,
  JSON decoding with serde, the ratatui popup, and the installer's file work.
- `tests/` — tests of the library.

serde_json writes the JSON string literals and integers (`src/json_text.rs`)
and parses `tui.json` and `/health` replies (`src/install.rs`, `src/client.rs`),
through small trusted functions.
