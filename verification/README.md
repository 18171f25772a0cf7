# imclicker_v2

A desktop autoclicker for Windows whose decision logic is verified with Verus.

- `src/` is the verified library:
  - `config.rs`: the bind mode, the saved configuration, the target buttons and
    the save throttle;
  - `engine.rs`: the shared state, the click period, the live-rate windows,
    and the click worker as a state machine (`Worker::step`) with its laws:
    clicks only when due, no catch-up bursts, hybrid coarse-sleep/spin waiting,
    stopping on request;
  - `keys.rs`: bindable keys, their virtual-key codes and names, capturing a
    new hotkey;
  - `run.rs`: laws over whole runs of the worker: what the worker writes to
    the shared state, the toggle as the parity of key presses, and the
    spacing of clicks while the clicker stays on (by the manual switch or
    the hotkey);
  - `text.rs`: decimal numbers, the texts of the window and how often it
    redraws.
- `app/` is the program around it: the egui window, the worker thread with its
  atomics, the floating-point live rate and one-decimal formatting, the
  Windows input and timer calls, and the JSON configuration file.
- `tests/` runs the library on concrete values.
