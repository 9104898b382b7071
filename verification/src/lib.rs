//! Rate limiting, retry and circuit-breaking logic of the Cadence service's
//! Stellar integration.
pub mod rate_limit_ledger;
pub mod config;
pub mod stellar;
pub mod circuit_breaker;
pub mod retry;
pub mod rate_limit;
