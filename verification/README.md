# foxess

A client for the FoxESS Cloud Open API, built around a library verified with Verus.

* `src/` is the verified library: the registries of variables, settings and work
  modes; request signing and headers; request payloads; validation of battery
  charging schedules; classification of responses; the transformation of response
  payloads into models (real-time values, history series, settings, available
  variables, scheduler segments); and the library's error type. Instants are
  milliseconds since the Unix epoch, and numeric values are of the type that the
  caller decodes them to.
* `app/` is the client around it: the `Fox` type that sends requests with
  `reqwest`, encodes and decodes JSON with `serde`, reads the clock, and performs
  the floating-point conversions of values.
* `tests/` exercises the library.

The calls into `md-5` (request signatures) and `chrono` (local time of day,
parsing of timestamps) stand in `src/client/signing.rs` and `src/client/time.rs`,
each behind a contract stated in its doc comment.
