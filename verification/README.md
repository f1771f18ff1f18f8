# gmsv_rhttp

Async HTTP for Garry's Mod servers, with its decisions verified by Verus.

A script calls `rhttp(options)` and gets `true, requestId` when the request is
queued, otherwise `false`. `rhttp_cancel(requestId)` cancels a request that
still exists, and `rhttp_stats()` returns the counters.

## Layout

- `src/` is the verified library. It decides what a request looks like, whether
  it is let in, when it is tried again, what its callbacks get, and how many
  bytes are buffered. Every public function has a contract, and the functions
  whose names begin with `law_` state what holds of the library as a whole.
- `app/` is the module that the game loads. It reads the options from the
  script, runs the network client and its threads, and carries out what the
  library decides. It is ordinary Rust.
- `tests/` runs the library on concrete values.

## What is trusted

The library calls `reqwest` (URLs, methods, headers), `serde_urlencoded` (forms)
and `tokio-util` (cancellation tokens) through a few functions whose contracts
are believed, not proved: those marked `external_body` or written as
`assume_specification` in `url`, `method`, `headers` and `token`. Each says
which outside function it stands for and what it claims of it.

## Limits

- 20 MB per request or response body, 64 MB of buffered bodies in all.
- 256 requests on the network at once, 1024 in flight.
- At most 5 retries; pauses between attempts of at most 30 seconds.
