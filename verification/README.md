# cadence_contract

The rate-limiting, retry and circuit-breaking logic of the Cadence service's
Stellar Horizon client, written in Verus with its behaviour stated in
contracts and proved.

- `src/rate_limit_ledger.rs` — per-issuer token buckets (refill, consume) and
  the laws of refilling (capped, idempotent, and, within 2^32 elapsed
  seconds, monotone in time and independent of how often it is observed),
  and the metric events that checks and resets report.
- `src/config.rs` — client settings and their defaults; durations are in
  nanoseconds.
- `src/stellar.rs` — errors and results of Horizon requests, and the
  computations that turn a reply into them.
- `src/circuit_breaker.rs` — the circuit breaker as a state machine over a
  caller-supplied monotonic clock, with its invariant and laws.
- `src/retry.rs` — exponential backoff and the decision after each attempt.
- `src/rate_limit.rs` — the client-side limiter, on `governor`.
- `app/` — the HTTP client and server around the library: requests, waits,
  locking, jitter, serde and error messages.
