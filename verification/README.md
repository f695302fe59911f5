# kira (sound playback core)

The playback logic of the `kira` game-audio library's sounds, written in
Verus: the verifier proves every function in `src/` against its
`requires`/`ensures` contract. The accessors of values that other threads
change (atomic flags and the ring buffer's contents) state nothing of
those values. A few small functions are trusted rather than proved: they
call `Arc::clone`, `Duration::new` and the `ringbuf` crate, and their
contracts say what those calls return.

## Layout

- `src/sound/transport.rs`: the transport that moves through a sound's
  frames, loops inside a loop region and stops at the edges of the audio,
  with the laws it keeps (wrapping lands in the region, a step undoes the
  opposite step, looping playback never stops, playback without a loop
  passes every frame and then stops).
- `src/sound/static_sound/`: sounds loaded into memory: their data and
  slicing, their settings, the resampler that keeps the four most recent
  frames, and the sound that plays them frame by frame.
- `src/sound/streaming/`: sounds decoded while they play: the `Decoder`
  trait, the data and its slicing, the scheduler that decides which
  frame to decode and send next, and the step that decides whether a
  streaming sound plays, waits or stops.
- `src/sound/finite/`, `src/sound/data/`: sound data generic over its
  settings, the finite sound that plays such data frame by frame, and the
  `SoundData` trait.
- `src/sound/symphonia.rs`: turning decoded channel buffers into frames.
- `src/sound/ring.rs`: the single-producer, single-consumer ring buffer
  (from the `ringbuf` crate) that carries frames between threads.
- `src/sound/time.rs`: exact durations of frame counts.
- `tests/`: tests of the library on concrete values.
- `app/`: what the verifier does not see: decoding files with `symphonia`,
  floating-point positions, the decoding thread, and the error types with
  their `Display` and `serde` implementations.
