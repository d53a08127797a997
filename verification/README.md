# vpio

Voice processing capture on macOS (`VoiceProcessingIO`), with every decision verified by Verus.

- `src/unit.rs`: the operations of a voice processing unit. A method begins an operation;
  `Operation::call` names the native call to make and `resume` takes its reply.
- `src/input.rs`: capture storage, sized once for the largest callback and never in one.
- `src/capture.rs`: a run of the capture callback, event by event.
- `src/silence.rs`: the silent output.
- `src/probe.rs`: plans and judges bounded test recordings.
- `src/native.rs`: the Core Audio values that the above speak of.
- `app/`: the macOS side, which makes the native calls through coreaudio-rs and so builds on Apple
  platforms alone.
- `tests/`: tests of the library, which need no audio hardware.
