# oto

The decisions behind Oto's macOS dictation plumbing, written in Verus and
proved against their contracts:

- `src/config.rs` — what the text found at the configuration path means
  (first run, damaged file, document) and the guard that keeps `api_key`
  out of the file.
- `src/hotkeys.rs` — which chords to bind: the primary chord first, then one
  per enabled mode, never two on the same keys.
- `src/injection.rs` — delivering dictated text (clipboard and ⌘V, then
  Accessibility, then typing) and capturing the selected text, as state
  machines that say what to do next given what just happened.
- `src/ax_inject.rs` — inserting through the Accessibility API only into
  native text fields, and never overwriting a document that was not empty
  or fully selected.
- `src/paste.rs` — which key events to post, where, in which order the
  delivery routes are tried, and what the user is told when they fail.
- `src/focus.rs` — which running application receives the text.
- `src/permissions.rs` — the permission report shown in the settings.
- `src/paths.rs`, `src/text.rs` — path and string primitives with their
  meaning stated as spec functions.

`app/` performs what the library asks for on macOS (Accessibility, the
pasteboard, key events, running applications, the microphone, files and
processes) and reports back; it is ordinary Rust and is not verified.
`tests/` runs the library on concrete values.
