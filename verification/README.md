# Galahad Encoder

A Windows desktop encoder for live game and broadcast workflows. It captures a
game window or a video device, mixes audio sources, and streams a low-latency
feed to a receiver over SRT or SMPTE ST 2110.

- `src/` is the verified core: it plans what FFmpeg and GStreamer run, selects
  encoders and profiles, parses what programs print and operators send, and
  decides what the stream supervisor, the session monitor and the Control Channel
  link do next. Every function carries a contract. Verus proves them all but those
  of a few declarations that stand for calls into the standard library, `uuid` and
  `serde_json`: these are believed as they are written, and each says so.
- `app/` is the program around it: processes, threads, sockets, the desktop shell,
  capture and audio APIs, floating-point mixing, and the JSON forms.
- `tests/` runs the core on concrete values.

Parameters and results of the core are plain values. Gains and samples pass
through it as the bits of single-precision numbers; the mixer in `app/` computes
with them.
