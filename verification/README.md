# remi_osc

An avatar-state saver for VRChat over OSC. It listens for VRChat's OSC
messages, keeps the current values of a fixed list of avatar parameters,
and on request saves them to a state file or sends a saved state back.

- `src/` is the verified library (Verus):
  - `text`: character-level text operations (substring search, quote
    stripping, last path segment, `i32` parsing, decimal writing);
  - `params`: parameter values, the parameter list (a map with a type
    invariant), the tracked parameters, and reading VRChat's avatar data;
  - `avatar_data`: reading an avatar's data file (JSON through
    `serde_json`) and the search for it among the user directories;
  - `osc`: decoding datagrams and encoding toggle messages through `rosc`;
  - `session`: the reaction to each OSC message, as a state machine;
  - `transmit`: which parameters of a saved state are sent, and in what order;
  - `paths`, `config`, `setup`: file locations, network settings, and the
    start-up directory and settings checks.
- `app/` is the program: sockets, files, JSON, console output and the
  OpenVR haptics.
- `tests/` runs the library on concrete values.
