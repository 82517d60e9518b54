# cuty_window

A desktop creature: a small borderless window with a pixel-art face that
runs away from the mouse cursor, and every now and then turns round and
hunts it down instead.

- `src/` is the verified library: `canvas` (painting circles and boxes into
  RGBA pixels), `face` (the whole 80 by 60 face frame), `behavior` (window
  geometry, fleeing, bouncing off the screen's edges, Alt detection),
  `mood` (the creature's modes, clicks, motions and close requests) and
  `icon` (decoding the window icon with the `image` crate).
- `app/` is the Windows program around it: the event loop, input polling,
  randomness, and the floating-point motion of the window.
- `tests/` runs the library on concrete values.
