# notepad

A small tabbed text editor. The library (`src/`) holds its logic, verified with Verus:

- `text`: character and byte positions in UTF-8 text, occurrence search, character ranges,
  line and column of a cursor, decimal numbers.
- `document`: one note, its text, path and unsaved-edits flag.
- `workspace`: the open documents as tabs, with the invariant that one is always open and
  active and that no two share an identity.
- `search`: what "Next" and "Previous" of the find bar select.
- `app`: the notepad's state and decisions: the find bar, selection editing, the
  unsaved-changes protocol for closing tabs and exiting, saving, zoom, titles and shortcuts.

`app/` is the desktop program around it (eframe/egui windows, rfd file dialogs, file I/O).
