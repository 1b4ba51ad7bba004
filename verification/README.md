# windows_app_bar

A verified state machine for Windows Shell AppBars. An AppBar reserves space at
an edge of a selected monitor, such as for a desktop toolbar.

- `AppBar` is for applications that own their window procedure and forward
  native messages to `handle_window_message` themselves.
- `SubclassedAppBar` sees the messages of a window through a window subclass and
  forwards them automatically.

## Steps

The library makes no native call itself. An operation is a sequence of steps:
each step either names the call that it needs made, or ends the operation.
Whoever runs the operation makes the call and hands its outcome to `resume`. The
window procedure may be entered again while a call is being made; what it is
told in the meantime is noted and handled before the operation ends.

## Layout

- `src/` holds the library. Every function has a contract that Verus proves,
  but for the one that reads the `HWND` out of a raw window handle.
  `app_bar_laws` and `lifecycle_laws` state what holds of whole operations,
  whatever the desktop replies. Of subclassed windows most laws hold however
  operations interleave; those about a quiet run are about an operation that no
  other disturbs.
- `tests/` runs the library against a mock desktop.
- `app/` makes the native calls, keeps the states of a thread's windows, and
  offers `AppBar` and `SubclassedAppBar` as ordinary values that clean up when
  they are dropped.
