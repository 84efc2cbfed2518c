# plinth

The core of a small Win32 windowing and rendering toolkit, written in Verus:
the functions in `src/` that compute a result or change state carry a
contract that Verus proves. The few calls into outside crates and into
parts of std that Verus does not specify stand behind small trusted
declarations, whose contracts Verus takes as given.

## Layout

- `src/` — the verified library.
  - `handle_pool` — a fixed-capacity pool addressed by generational handles.
  - `tree`, `scene`, `visuals` — trees of nodes whose identifiers expire
    when their node is removed.
  - `vsync` — the schedule of windows waiting for vertical blanks.
  - `window`, `win32_window`, `input`, `event_loop` — the per-window state
    machines and the decoding of window messages.
  - `window_thread` — the decisions of a window's event thread.
  - `render` — the render thread's table of outputs and the clock decisions.
  - `text`, `string`, `limits`, `time`, `dpi`, `gfx`, `power`, `util` — text
    encoding and glyph caching, hashed strings, platform limits, counter
    arithmetic, geometry, draw lists, power events and bitmaps.
- `tests/` — tests run against the compiled library.
- `app/` — the platform side: Win32 calls, threads, clocks and the
  floating-point rates and scales, around the library's decisions.
