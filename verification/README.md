# niri_ui

The on-screen config notification and exit-confirmation dialog of a Wayland
compositor, as a Verus-verified library.

- `src/` — verified: the show/hide state machines of both widgets (with their
  laws as proof functions), the per-scale render caches, the widgets' text and
  the text-layout decisions (metrics updates, key highlight spans).
  Animations and textures are type parameters; new animations are built by a
  closure the caller passes in.
- `tests/` — tests of the library on concrete values.
- `app/` — plain Rust around it: text shaping and drawing with cosmic-text
  and tiny-skia, the floating-point placement of the widgets, scale keys, and
  the accessibility node.
