# audio_tools

The logic of an audio editor and of its floating tool windows, written in Verus:
every function of the library carries a contract, and the contracts are proved.

What is measured in beats, pixels, hertz or decibels stays opaque to the library:
it is handed in as a reading of some type `T`, and the library decides what
happens. Peaks are integers that order as the samples do.

## Layout

- `src/timeline.rs`, `src/stretch.rs` – clips, tracks, and edits of a clip's
  fades, envelope and warp markers
- `src/editor.rs`, `src/host.rs`, `src/editor_laws.rs` – the editor's state
  machine, and what holds of it whatever the user does
- `src/adapter.rs`, `src/view_model.rs` – what the editor panel shows
- `src/samples.rs` – the bounded registry of decoded sample windows
- `src/target.rs`, `src/tools.rs`, `src/tool_window.rs`, `src/actions.rs`,
  `src/panel.rs`, `src/window_items.rs` – the tool windows
- `src/preview.rs`, `src/render.rs`, `src/paths.rs` – previews, offline renders
  and the files they are written to
- `src/navigator.rs`, `src/repair.rs`, `src/repair_actions.rs`,
  `src/inspector.rs`, `src/workspace.rs` – the repair workspace
- `src/canvas.rs`, `src/mask.rs`, `src/graph.rs`, `src/viz.rs` – the processing
  canvas, its attenuation image, and the plots
- `src/text.rs` – text helpers
- `app/` – ordinary Rust around the library: measures in floating point,
  decoding workers, painting, and the ports to the toolkit and the engine
- `tests/` – tests of the library

Proof functions named `law_…` state what holds across several functions.

Outside code is called through a few items that are believed without proof, each
with a comment that says what is claimed: the `image` and `smallvec` calls in
`src/mask.rs`, the path functions in `src/paths.rs`, `char::is_whitespace` in
`src/samples.rs` and `String::push` in `src/text.rs`.
