# Volume Scroller

A tray application that changes the system volume when the mouse wheel is
turned over the Windows taskbar, and shows the new level in a small overlay.

- `src/` is the verified library (Verus): wheel deltas and steps (`wheel`),
  screen rectangles and the full-screen test (`geometry`), the overlay's
  position (`overlay`), the preferences and their normalization
  (`preferences`), the decisions of the event loop, tray and start-up entry
  (`actions`), and what is sent to the windows (`payload`).
- `app/` is the Tauri shell around it: the commands, the tray, the mouse hook,
  the audio endpoint, the registry entry and the preferences file. Floating-point
  values (volume levels, overlay sizes, the scroll increment) stay there.
- `tests/` runs the library on concrete values.
