//! Settings of the Stellar client: retries, circuit breaking, timeouts and
//! rate limits.  All durations are in nanoseconds.
use vstd::prelude::*;

verus! {

pub const DEFAULT_RETRY_BASE_DELAY_NS: u128 = 100_000_000;

pub const DEFAULT_RETRY_MAX_DELAY_NS: u128 = 10_000_000_000;

pub const DEFAULT_REQUEST_TIMEOUT_NS: u128 = 10_000_000_000;

pub const DEFAULT_FAILURE_THRESHOLD: u32 = 5;

pub const DEFAULT_OPEN_DURATION_NS: u128 = 30_000_000_000;

pub const DEFAULT_HALF_OPEN_MAX_CALLS: u32 = 1;

/// The service settings that the Stellar client is built from.
#[derive(Clone, Debug)]
pub struct AppConfig {
    pub stellar_horizon_url: String,
    pub rate_limit_per_second: u32,
    pub rate_limit_burst: u32,
    pub stellar_max_retries: u32,
    pub stellar_retry_base_delay_ms: u64,
    pub stellar_retry_max_delay_ms: u64,
    pub stellar_retry_jitter_enabled: bool,
    pub stellar_circuit_breaker_failure_threshold: u32,
    pub stellar_circuit_breaker_open_duration_ms: u64,
    pub stellar_circuit_breaker_half_open_max_calls: u32,
    pub stellar_request_timeout_ms: u64,
}

/// Whether retry delays are randomised.
#[derive(Debug, Clone, Copy, PartialEq, Eq, Structural)]
pub enum RetryJitter {
    /// The delay is exactly the capped exponential backoff.
    Disabled,
    /// The delay is drawn uniformly between zero and the capped backoff.
    Full,
}

/// How failed Horizon requests are retried.
#[derive(Debug, Clone, Copy, PartialEq, Eq, Structural)]
pub struct RetryPolicy {
    /// Retries after the first attempt; at most `max_retries + 1` attempts are made.
    pub max_retries: u32,
    /// Delay before the first retry, in nanoseconds; it doubles with each retry.
    pub base_delay_ns: u128,
    /// Upper bound of any retry delay, in nanoseconds.
    pub max_delay_ns: u128,
    pub jitter: RetryJitter,
}

/// When the circuit breaker opens and how it recovers.
#[derive(Debug, Clone, Copy, PartialEq, Eq, Structural)]
pub struct CircuitBreakerConfig {
    /// Consecutive failures that open a closed circuit (0 counts as 1).
    pub failure_threshold: u32,
    /// How long an open circuit rejects calls, in nanoseconds.
    pub open_duration_ns: u128,
    /// Trial calls counted in flight while half-open, and successes that close
    /// it (0 counts as 1).  The call that turns the circuit half-open is not
    /// counted, so one more call than this may be under way.
    pub half_open_max_calls: u32,
}

/// All settings of a Stellar client.
#[derive(Debug, Clone, Copy, PartialEq, Eq, Structural)]
pub struct StellarClientConfig {
    pub retry: RetryPolicy,
    pub circuit_breaker: CircuitBreakerConfig,
    /// Timeout of one Horizon request, in nanoseconds.
    pub request_timeout_ns: u128,
    pub rate_limit_per_second: u32,
    pub rate_limit_burst: u32,
}

/// `ms` milliseconds in nanoseconds.
pub open spec fn ms_to_ns_spec(ms: u64) -> u128 {
    (ms * 1_000_000) as u128
}

/// `ms` milliseconds in nanoseconds.
pub fn ms_to_ns(ms: u64) -> (ns: u128)
    ensures
        ns == ms_to_ns_spec(ms),
{
    (ms as u128) * 1_000_000
}

impl StellarClientConfig {
    /// The client settings that the service settings name.
    pub fn from_app_config(config: &AppConfig) -> (c: Self)
        ensures
            c.retry == (RetryPolicy {
                max_retries: config.stellar_max_retries,
                base_delay_ns: ms_to_ns_spec(config.stellar_retry_base_delay_ms),
                max_delay_ns: ms_to_ns_spec(config.stellar_retry_max_delay_ms),
                jitter: if config.stellar_retry_jitter_enabled {
                    RetryJitter::Full
                } else {
                    RetryJitter::Disabled
                },
            }),
            c.circuit_breaker == (CircuitBreakerConfig {
                failure_threshold: config.stellar_circuit_breaker_failure_threshold,
                open_duration_ns: ms_to_ns_spec(config.stellar_circuit_breaker_open_duration_ms),
                half_open_max_calls: config.stellar_circuit_breaker_half_open_max_calls,
            }),
            c.request_timeout_ns == ms_to_ns_spec(config.stellar_request_timeout_ms),
            c.rate_limit_per_second == config.rate_limit_per_second,
            c.rate_limit_burst == config.rate_limit_burst,
    {
        Self {
            retry: RetryPolicy {
                max_retries: config.stellar_max_retries,
                base_delay_ns: ms_to_ns(config.stellar_retry_base_delay_ms),
                max_delay_ns: ms_to_ns(config.stellar_retry_max_delay_ms),
                jitter: if config.stellar_retry_jitter_enabled {
                    RetryJitter::Full
                } else {
                    RetryJitter::Disabled
                },
            },
            circuit_breaker: CircuitBreakerConfig {
                failure_threshold: config.stellar_circuit_breaker_failure_threshold,
                open_duration_ns: ms_to_ns(config.stellar_circuit_breaker_open_duration_ms),
                half_open_max_calls: config.stellar_circuit_breaker_half_open_max_calls,
            },
            request_timeout_ns: ms_to_ns(config.stellar_request_timeout_ms),
            rate_limit_per_second: config.rate_limit_per_second,
            rate_limit_burst: config.rate_limit_burst,
        }
    }
}

/// The default circuit breaker settings.
pub open spec fn default_circuit_breaker_config() -> CircuitBreakerConfig {
    CircuitBreakerConfig {
        failure_threshold: DEFAULT_FAILURE_THRESHOLD,
        open_duration_ns: DEFAULT_OPEN_DURATION_NS,
        half_open_max_calls: DEFAULT_HALF_OPEN_MAX_CALLS,
    }
}

impl Default for CircuitBreakerConfig {
    /// Five failures open the circuit for thirty seconds; one half-open call.
    fn default() -> (c: Self)
        ensures
            c == default_circuit_breaker_config(),
    {
        CircuitBreakerConfig {
            failure_threshold: DEFAULT_FAILURE_THRESHOLD,
            open_duration_ns: DEFAULT_OPEN_DURATION_NS,
            half_open_max_calls: DEFAULT_HALF_OPEN_MAX_CALLS,
        }
    }
}

impl Default for StellarClientConfig {
    /// Three retries from 100 ms up to 10 s with full jitter, the default circuit
    /// breaker, a 10 s request timeout and 10 requests a second with a burst of 10.
    fn default() -> (c: Self)
        ensures
            c.retry == (RetryPolicy {
                max_retries: 3,
                base_delay_ns: DEFAULT_RETRY_BASE_DELAY_NS,
                max_delay_ns: DEFAULT_RETRY_MAX_DELAY_NS,
                jitter: RetryJitter::Full,
            }),
            c.circuit_breaker == default_circuit_breaker_config(),
            c.request_timeout_ns == DEFAULT_REQUEST_TIMEOUT_NS,
            c.rate_limit_per_second == 10,
            c.rate_limit_burst == 10,
    {
        Self {
            retry: RetryPolicy {
                max_retries: 3,
                base_delay_ns: DEFAULT_RETRY_BASE_DELAY_NS,
                max_delay_ns: DEFAULT_RETRY_MAX_DELAY_NS,
                jitter: RetryJitter::Full,
            },
            circuit_breaker: CircuitBreakerConfig {
                failure_threshold: DEFAULT_FAILURE_THRESHOLD,
                open_duration_ns: DEFAULT_OPEN_DURATION_NS,
                half_open_max_calls: DEFAULT_HALF_OPEN_MAX_CALLS,
            },
            request_timeout_ns: DEFAULT_REQUEST_TIMEOUT_NS,
            rate_limit_per_second: 10,
            rate_limit_burst: 10,
        }
    }
}

} // verus!
