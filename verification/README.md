# duplex_audio

The decisions behind audio streams on CoreAudio devices, verified with Verus: which properties of
a device are read and written, in which order and with which values, when a stream is refused and
with which error, how callbacks date the frames they carry, and how streams are started, watched
and torn down. Duplex streams, which capture and render audio in a single device callback, are at
the centre.

- `src/` is the library. Its procedures do no I/O: each is a value that names the next request and
  is resumed with the reply. Floating-point values that come from a device are handled exactly, by
  their bit patterns.
- `app/` carries the requests out on macOS and bridges to CoreAudio's threads.
- `tests/` runs the library on concrete values.
