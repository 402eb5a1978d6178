# room_sense

Room sensing from WiFi channel state: guided enrollment, training and live watch of a room, and a
temporal attention head. The library is written in Verus and proved against its contracts.

- `src/` the library. `enroll`, `capture` and `watch` are state machines: they say what to do next
  and are told what came of it. `room` checks what was loaded and writes reports and failures;
  `ending` decides how each command ends.
  `sparse` is the attention head; `kernel` holds what is taken on trust of the attention kernel.
  Functions named `law_...` state what holds of the library as a whole.
- `tests/` examples that run against the compiled library and the real kernel.
- `app/` the commands: files, sockets, clocks and printing. They are generic over the calibration
  pipeline that records anchors, extracts features and trains specialists.
