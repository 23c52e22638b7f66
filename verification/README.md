# streamhaul

The core of a remote-desktop streaming stack, written in Rust and verified with Verus.

- `src/` is the library. It decides: how a bitrate is shared and paced, how controllers react to
  feedback, how loss is repaired, which codec is used, how frames are captured, coded, cut into
  fragments and streamed, and how a host pairs with a browser. Its own functions carry contracts, and
  the laws that hold across functions are stated as proof functions named `law_…`. Traits are there
  for callers to implement: some of their methods promise something, and some nothing at all.
- `app/` performs: sockets, clocks, threads, floating-point estimates and standard output. What it
  needs from a platform comes in through the traits in `app/ports.rs`.
- `tests/` runs the library.

The library reads no clock and opens no socket. Callers hand in the time and what came in, and are
told what to do next.
