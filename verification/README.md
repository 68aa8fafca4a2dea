# plasma_drop

Drop-down windows for KDE Plasma: an app's hotkey shows its window in its place, or hides it.

- `src/` is the verified core: configuration, hotkeys, finding windows, placing them on screens,
  the tasks that show and hide them, and the bridge to the window manager's script. Contracts are
  stated over the views of the types; what holds across functions is stated in the proof functions
  whose names begin with `law_`.
- `app/` is the program around it: the command line, files, D-Bus, timers, and the course of
  animations, which needs floating-point numbers.
- `tests/` runs the core.

A task of the core never acts by itself. It hands out an `Action` and waits for the `Event` that
answers it; times are nanoseconds that the caller supplies. Regular expressions are those of the
`regex` crate and identifiers are drawn by the `uuid` crate; what is believed of them is stated in
`src/pattern.rs` and `src/wm/kwin/types.rs`, and what is believed of `String::push` in
`src/text.rs`.
