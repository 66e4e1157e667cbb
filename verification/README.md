# duck_robot

The IPC contracts between the robot's services and their clients, and the decisions `robotd`
makes about what clients ask of it, written in Verus and verified.

- `src/` is the verified library. `call` decides, for each call, its method name, whether it
  changes the robot, which service answers it and on which lane, and how its parameters are read;
  `envelope` builds requests and responses; `chorale` encodes and decodes the beacon payload;
  `identity` reads a release out of a binary's path and renders build identity; `intents` holds
  the encodings of the pending requests the control loop takes each tick; `control` is the skill
  scheduler's gating and network selection; `expression` maps skills to pet expressions.
  Laws that span functions are public proof functions beside the functions they speak of.
- `tests/` runs the library on concrete values.
- `app/` is ordinary Rust around the library: the serde forms of its types, the floating-point
  intents and telemetry, what daemons publish on disk, and the control loop's clocks, inference
  and filters.
