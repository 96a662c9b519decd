# fluss_gateway

A REST gateway for Apache Fluss whose decision logic is verified with Verus.

- `src/` is the verified library: configuration loading and command-line
  overrides, HTTP Basic credentials, the JSON to field value conversion of
  rows, lookup key rows, scan plans and write routing, the circuit breaker
  and retry policy, request metrics and route templates, pool keys and
  connection settings, and the error codes of the API. Calls into outside
  crates (base64, SHA-256, the Fluss client's error text, the Prometheus
  recorder, the system clock) go through small trusted wrappers whose
  contracts are stated next to them.
- `app/` is the server around it: command line, reading `gateway.toml`,
  axum routes and middleware, the Fluss client calls, the connection cache,
  Arrow result batches and floating-point values, and metric export.
- `tests/` exercises the library on concrete values.
