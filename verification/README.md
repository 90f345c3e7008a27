# rama (required headers and hyper adapter)

A verified library, in Verus, of two pieces of rama's HTTP stack:

- `src/required_header.rs`: the middleware that sets a request's `host` and
  `user-agent` headers when they are missing (`host` on http/1.1 only), with its laws (idempotence,
  presence, nothing else changed).
- `src/svc_hyper.rs`, `src/body_limit.rs`, `src/context.rs`: the hyper
  adapter's per-call decisions on which body limits apply.
- `src/header.rs`: the `http` header types the middleware works on, declared
  with the contracts that `http`'s source shows.

`app/` holds the asynchronous edges (the middleware's `serve`, the hyper
`Service` impl) and the TLS re-exports; `tests/` exercises the library.
