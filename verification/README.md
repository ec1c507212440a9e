# broker_gateway_service

The core of a broker gateway: the rules that decide what happens to order,
cancel, replace, status and market-data requests on their way to a broker,
written in Verus with their contracts proved.

- `src/` — the verified library: request validation, workload and operation
  modes, idempotency (LRU), circuit breaker, retry back-off, kill switch,
  connection pool and reconnect schedule, stream monitoring (gaps,
  duplicates, resets, latency, silent disconnects), the event reactor's
  decisions, the gateway's outbound sequence (workload, risk, journal,
  execute), telemetry events and the symbol registry.  Public proof
  functions named `law_*` state the properties that hold across calls.
- `app/` — the program around it: configuration, tokio tasks, channels,
  serialization, the floating-point rate limiter and price checks.
- `tests/` — tests of the library on concrete values.
