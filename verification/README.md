# ime_indicator

A Mac-like "A / あ" input-mode indicator for Windows. The verified library in `src/`
holds its decisions; `app/` holds the Windows program around them.

- `src/ime.rs`: the input modes, how an IMM status maps to a mode, the glyph of each mode.
- `src/caret.rs`: where the indicator goes, from UI Automation, `GUITHREADINFO`, the
  foreground window or the mouse cursor, in that order of preference.
- `src/app.rs`: the display lifecycle (hidden, fade in 120 ms, shown 1.5 s, fade out 200 ms).
- `src/control.rs`: mode numbers, IME keys, the keyboard-hook and poll decisions, and
  the window messages.
- `src/startup.rs`: the `Run` registry value for start at logon.
- `app/`: window, overlay drawing, keyboard hook, timers, registry and the easing curves.
