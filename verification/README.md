# castify

The verified core of Castify, a screen caster: a caster captures and encodes
its screen, receivers decode and show it in step with the audio.

- `src/` is the library, verified with Verus:
  - `pipeline/time.rs`, `types.rs`, `clock.rs`: microsecond durations and
    instants, media timestamps and frames, the shared media clock with its
    per-stream offsets and correlation ids.
  - `pipeline/state.rs`, `stage.rs`, `health.rs`: the pipeline state machine,
    the lifecycle of a set of stages, health counters and the periodic
    health check.
  - `pipeline/receiver/`: the jitter buffer that restores packet order, the
    keyframe gate and frame stamping of the decoder, the A/V scheduler that
    releases or drops frames against the audio position, and the receiver's
    coordinator.
  - `pipeline/sender/`: IDR detection and frame wrapping of the encoder, and
    the sender's coordinator (start, pause, resume, stop, mute, blank).
  - `gui/`: the GUI's styles and icons as data, page navigation, the area
    selector and annotation windows, and the registry of open windows.
- `tests/` exercises the library on concrete values.
- `app/` is the program around it: command-line flags, and the stages as
  tokio tasks that move data between channels and call the library for
  every decision.
