# audio_playback_timeline

Primitives that map backend output timing to the audio frame actually reaching
the DAC, and release timestamped metadata against that audible timeline. The
library is written in Verus; its contracts and laws are proved. The contents of
the shared clock's atomics are not modelled, so nothing ties what its writer
stores to what its readers answer, and the monotonicity of the shared readers'
answers is not proved; the decisions taken around those reads and writes are.

Layout:

- `src/types.rs`: identities and time/frame newtypes.
- `src/timeline.rs`: the deterministic `AudibleClock`, its abstract state
  `ClockState`, the span arithmetic, and the timeline laws.
- `src/shared.rs`: the lock-free single-writer/multi-reader clock built on
  atomics, applying the timing rules of `timeline.rs` (stale, reversed,
  regressive) to what it publishes.
- `src/gate.rs`: `ClockGate<T>`, which queues metadata and releases the newest
  frame whose boundary has become audible, with its ordering laws.
- `src/adapter.rs`: backend-neutral time conversion used by backend adapters.
- `app/`: the CPAL adapter and `Display` messages for the error types.
