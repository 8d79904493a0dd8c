# coral

The verified core of the coral toolkit: a logging backend that writes
length-prefixed protobuf records, HTTP client and proxy pools, an async
runtime whose workers are pinned to cores, configuration handling and the
small parsers used by the proxy.

## Layout

- `src/` — the library, written in Verus. Every function carries a
  contract that Verus proves; the few calls into std and outside crates
  sit behind small trusted wrappers whose contracts say what those crates
  document.
  - `frame` — framing of encoded records and reading frames back.
  - `record`, `proto`, `stdlog`, `trace_log` — the record model, the
    `tracing` and `log` record builders, and the log macro grammar.
  - `conn`, `http_pool`, `proxy_pool` — connection life cycles and the
    least-loaded choice among clients.
  - `runtime` — core requests, worker names and core assignment.
  - `util`, `midware`, `relay`, `discover` — request routing, trace
    headers, body relaying and service discovery.
  - `conf`, `envconf`, `db`, `cli`, `captcha`, `text` — configuration,
    environment overrides (names and values), captcha text and decimal
    text.
  - `wasm`, `data` — binding accessor names and file responses.
  - `tls` — certificates and keys read from PEM text.
- `tests/` — tests of the library.
- `app/` — the glue that does I/O: log writers, the `tracing` layer, the
  tokio runtime, TLS setup, captcha images and the shared pools.
