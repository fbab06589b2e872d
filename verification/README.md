# testruct_ui

The editing core of the Testruct Studio canvas, verified with Verus: text editing,
selection, keyboard and click handling, the clipboard of copied objects, and the
naming and error rules around export and dialogs.

Layout:

- `src/` — the verified library. Every public function states what it returns or
  changes in `ensures`; the laws that span several calls are public proof functions
  (`lemma_*`) next to the functions they are about.
  - `canvas/text_editor.rs` — the text editor (positions are byte offsets that the cursor moves by whole characters) and its model.
  - `canvas/selection.rs` — the selection, which never holds an id twice.
  - `canvas/input/` — key presses (text editing keys, alignment keys, shortcuts), clicks,
    copy and cut, and the pasteboard check of the input-method workaround.
  - `canvas/tools.rs`, `canvas/keyboard.rs`, `canvas/grid_rendering.rs` — tools, drag
    decisions, keyboard commands and ruler ticks.
  - `clipboard.rs` — copied elements, paste offsets, PNG headers and the size of
    pasted text.
  - `error.rs`, `export/`, `io/`, `dialogs/` — messages, export names and constants.
  - `text_bytes.rs` — UTF-8 facts and the few standard-library calls the library makes.
- `tests/` — tests of the library on concrete values.
- `app/` — ordinary Rust around the library: floating-point geometry (alignment,
  snapping, hit tests, resizing, coordinates), the system clipboard, file locations,
  export settings, and a canvas state that feeds pointer and key events to the library.
