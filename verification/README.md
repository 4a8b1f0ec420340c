# krusty_grab

Verified core of the drawing tools of a screenshot editor.

- `src/redo_list.rs`: `RedoList`, a stack of undone drawings bounded by a
  capacity; a push onto a full list forgets the oldest drawing.
- `src/history.rs`: undo, redo and recording over the drawing list and the
  optional redo list, with the laws that relate them.
- `src/tools.rs`: the drawing tools, the toolbar's icons and highlights, and the
  alpha of highlights.
- `src/canvas.rs`: the canvas as a state machine: `canvas_step` takes one
  frame of pointer input and text-editor events, updates the drag and editor
  state, records text edits, and says what the GUI does with strokes and shapes.
- `src/save.rs`: the file name of a saved screenshot, from the time (formatted
  by chrono) and the image format.
- `app/lib.rs`: the egui side: drawings with their float geometry, egui memory
  as the store of both lists and of the canvas state, the toolbar and canvas
  widgets, and painting.
