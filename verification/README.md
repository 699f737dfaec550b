# mcat_core

The verified core of a terminal viewer for documents and images, written in
Verus.

- `src/pager.rs`: choosing the pager from the user's setting (the built-in
  pager for `less -r`, otherwise the program the setting names), the built-in
  pager's key bindings, and the bytes of each page it draws.
- `src/viewer.rs`, `src/viewport.rs`: the interactive image viewer's bindings
  over zoom, pan and the current image, when it redraws, and its help prompt.
  The zoom and pan rules are rasteroid's `ZoomPanViewport`, called on a plain
  copy of its state.
- `src/layout.rs`: where a viewer frame goes on the screen.
- `src/plan.rs`: which files may be shown together, which output each gets,
  and when color and the pager are used.
- `src/ansi.rs`, `src/text.rs`, `src/input.rs`: terminal control sequences,
  decimal numbers, `str::lines`-style line splitting, trimming, and the
  terminal events the bindings read.
- `src/laws.rs`: properties across calls, proved.
- `app/`: the terminal I/O around the library (raw mode, events, spawning an
  external pager, writing frames).
