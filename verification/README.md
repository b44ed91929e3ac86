# level_editor

The verified core of a Bevy level editor.

- `src/` (Verus): undo/redo history of level snapshots (`history`), the
  editor state (`model`), object editing commands (`objects`), keyboard input
  bookkeeping and shortcuts (`input`, `editor_input`), the focus-loss playtest
  timer (`focus`, using bevy's `Timer`), save/test requests (`save`), the end
  of a UI frame (`ui`), and properties that span several operations (`laws`).
  Levels are generic over the object type and the rest of the level data, so
  that floating-point positions and engine types stay outside the core.
- `app/`: the Bevy plugins and systems, egui panels, level file format and
  the conversions from engine input types to the core's types.
- `tests/`: tests of the core on concrete values.
