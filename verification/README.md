# glutin_window

The input-handling core of a browser window built on glutin, verified with Verus.

- `src/` — the verified library: key-code translation (`keys`), modifier
  tracking (`modifiers`), the event vocabulary (`events`), the window's input
  state machine (`window`), keyboard shortcuts (`shortcuts`), cursor shapes
  (`cursor`), the window title (`title`), and properties that span several
  events (`laws`).
- `app/` — the window itself: creating the glutin window, running its event
  loop, and the floating-point parts of scrolling and zooming.
- `tests/` — tests of the library on concrete values.
