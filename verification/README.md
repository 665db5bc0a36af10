# fui

The logic of a small GUI toolkit, verified with Verus: text editing, buttons and toggle
buttons, radio groups, menus, popups, dialogs, drop-downs and tabs, the grid's placement of its
children, window layers and window ids, the move/resize area of frameless windows, file dialog
filters, the fallback order of the Windows high-DPI calls, and the procedural background
texture.

- `src/` is the verified library. Each control is modeled as state plus events: a function from
  the state and an event to the next state and the request to the window, with an exact
  contract, and proof functions for the properties that span calls.
- `app/` holds what the library does not: floating-point geometry and the grid's size
  distribution, the attached values kept in type maps, font file reading, the texture cache and
  the Windows system calls.
- `tests/` runs the library on concrete values.
