# golemian_autoclick

The decision logic of a keyboard-driven autoclicker, verified with Verus.

- `src/hotkey.rs`: keys (Windows virtual-key codes), binding targets, and how a
  low-level keyboard hook call is read as a key event.
- `src/label.rs`: the readable label of each key.
- `src/state.rs`: the shared state and the state machine that released keys drive
  (toggle, inventory pause, rebinding).
- `src/commands.rs`: the requests of the user interface (speed, start / stop,
  rebinding).
- `src/click.rs`: the mouse inputs of one click and the pause after it.
- `src/ui.rs`: what the user interface is sent.
- `src/wide.rs`: UTF-16 strings for the Windows API.
- `src/classic.rs`: the standalone variant with a fixed `F4` toggle and a typed
  inventory key.
- `src/laws.rs`: properties that span operations.
- `app/`: the Tauri program around the library (window, keyboard hook, mouse input).
