# redeye

A blue-light filter for Wayland desktops: it warms the screen by drawing a
translucent amber overlay on a layer surface of every output.

- `src/` is the verified library (Verus). It holds the decisions of the filter:
  the state machine that decides when the overlay is created, redrawn or
  released (`filter`), the status text (`status`), the overlay image layout and
  pixel bytes (`pixels`), the handling of globals and layer-surface events
  (`overlay`), the error type (`error`), and the laws proved over them (`laws`).
- `app/` is the program around it: the Wayland connection, shared-memory files,
  the floating-point colour arithmetic, and a loop that reads a strength in
  percent per line from standard input.
- `tests/` exercises the library on concrete values.
