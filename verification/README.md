# edtui

The core of a Vim-like text editor widget for terminal applications, written
in Verus: a buffer of rows, a cursor, editing modes, motions and edits, undo
and redo, search, key bindings, mouse and paste handling, and the layout of
rows on screen (scrolling, wrapping, styled runs of text).

- `src/` is the verified library. Every operation states its effect on the
  editor state in its contract; `src/properties.rs` holds the properties
  that relate several operations (undo reverts an edit, redo reverts undo,
  the viewport keeps the cursor visible, wrapping keeps the text, ...).
- `app/` draws the editor with ratatui, converts terminal events and opens
  the system editor.
- `tests/` runs the library on concrete inputs.
