# Windowing core

The verified core of a minimal windowing library for Windows and macOS.

- `src/` is the library, proved with Verus: key codes (`keys`), rectangles
  (`geometry`), the per-frame keyboard and mouse state (`input`), shared enums
  (`types`), and the decisions of the Win32 (`win32`) and AppKit (`macos`) layers:
  how a window message or an event changes the input state, hit testing of a
  custom title bar, which parts of the framebuffer to present, vsync signalling.
- `app/` is the platform layer around it: the system calls, the `repr(C)`
  structures they take, the `PlatformWindow` trait, and the floating-point parts
  (pointer positions, scroll deltas, DPI scaling, the drawn autoscroll cursor).
- `tests/` runs the library on concrete values.

The cursor icons are the eight of `CursorIcon`. Autoscroll cursors (resting,
scrolling up, scrolling down) have no variant there: on Windows they are drawn by
`autoscroll_cursor_handle` in `app/windows/cursor.rs`, which takes a scroll
direction, and on macOS there are none.
