//! The client-side limiter on requests to Horizon, built on `governor`'s
//! in-memory direct rate limiter over the monotonic clock.
//!
//! Whether a request passes depends on the clock, so none of the calls below
//! promises an outcome; what the library states is how the limiter is built
//! and that building it cannot panic.
use vstd::prelude::*;
use governor::clock::{Clock, MonotonicClock};
use governor::state::{InMemoryState, NotKeyed};
use governor::{NotUntil, Quota, RateLimiter};
use std::num::NonZeroU32;
use std::time::{Duration, Instant};

verus! {

/// `std::time::Instant`.
#[verifier::external_type_specification]
#[verifier::external_body]
pub struct ExInstant(Instant);

/// A `governor` direct, in-memory rate limiter on the monotonic clock.  Its
/// state is governor's and is not visible here.
#[verifier::external_body]
pub struct DefaultRateLimiter {
    limiter: RateLimiter<NotKeyed, InMemoryState, MonotonicClock>,
}

/// A `governor::NotUntil`: the answer of a limiter that rejected a request,
/// which tells when one could next pass.
#[verifier::external_body]
pub struct RateLimited {
    not_until: NotUntil<Instant>,
}

/// The number of whole nanoseconds in which a limiter of `per_second` cells a
/// second replenishes one cell.
pub open spec fn replenish_interval_ns(per_second: u32) -> u64 {
    (1_000_000_000int / (per_second as int)) as u64
}

/// The quota a `governor` limiter was built with: its burst size, and the
/// nanoseconds in which it replenishes one cell.
pub uninterp spec fn limiter_quota(limiter: DefaultRateLimiter) -> (u32, u64);

/// Calls `governor::RateLimiter::direct` on the quota
/// `Quota::per_second(per_second).allow_burst(burst)`.  Governor's source
/// builds that quota with `burst` as its burst size and one cell replenished
/// every `1_000_000_000 / per_second` nanoseconds, and the limiter keeps it;
/// the contract claims that.  What the limiter decides later depends on the
/// clock and is not claimed here.
#[verifier::external_body]
fn direct_rate_limiter(per_second: u32, burst: u32) -> (l: DefaultRateLimiter)
    requires
        per_second > 0,
        burst > 0,
    ensures
        limiter_quota(l) == (burst, replenish_interval_ns(per_second)),
{
    let quota = Quota::per_second(NonZeroU32::new(per_second).unwrap())
        .allow_burst(NonZeroU32::new(burst).unwrap());
    DefaultRateLimiter { limiter: RateLimiter::direct(quota) }
}

/// Calls `governor::RateLimiter::check`: lets one request through, or tells
/// when one could next pass.  The outcome depends on the clock, so nothing is
/// claimed of it.
#[verifier::external_body]
fn limiter_check(limiter: &DefaultRateLimiter) -> (r: Result<(), RateLimited>) {
    match limiter.limiter.check() {
        Ok(()) => Ok(()),
        Err(not_until) => Err(RateLimited { not_until }),
    }
}

/// Calls `governor::clock::MonotonicClock::now`: a reading of the monotonic clock.
#[verifier::external_body]
fn monotonic_now() -> (t: Instant) {
    MonotonicClock {}.now()
}

/// Calls `governor::NotUntil::wait_time_from`: how long after `from` the
/// rejected request could pass (zero if that time has come).  Nothing is
/// claimed of the duration.
#[verifier::external_body]
fn wait_time_from(rejection: &RateLimited, from: Instant) -> (d: Duration) {
    rejection.not_until.wait_time_from(from)
}

/// A limiter that lets `per_second` requests a second through, in bursts of
/// up to `burst`.  Both must be positive.
pub fn build_rate_limiter(per_second: u32, burst: u32) -> (l: DefaultRateLimiter)
    requires
        per_second > 0,
        burst > 0,
    ensures
        limiter_quota(l) == (burst, replenish_interval_ns(per_second)),
{
    direct_rate_limiter(per_second, burst)
}

/// The limiter on requests from the Stellar client.
pub struct StellarRateLimiter {
    inner: DefaultRateLimiter,
}

impl View for StellarRateLimiter {
    /// The burst size, and the nanoseconds in which one request's allowance
    /// is replenished.
    type V = (u32, u64);

    closed spec fn view(&self) -> (u32, u64) {
        limiter_quota(self.inner)
    }
}

impl StellarRateLimiter {
    /// A limiter of `per_second` requests a second in bursts of up to
    /// `burst`; both must be positive.
    pub fn new(per_second: u32, burst: u32) -> (l: Self)
        requires
            per_second > 0,
            burst > 0,
        ensures
            l@ == (burst, replenish_interval_ns(per_second)),
    {
        Self { inner: build_rate_limiter(per_second, burst) }
    }

    /// Lets one request through if the limit allows it now.
    pub fn try_acquire(&self) -> (ok: bool) {
        limiter_check(&self.inner).is_ok()
    }

    /// Lets one request through if the limit allows it now (`None`), else
    /// tells how long to wait before trying again.
    pub fn wait_time(&self) -> (w: Option<Duration>) {
        match limiter_check(&self.inner) {
            Ok(()) => None,
            Err(negative) => Some(wait_time_from(&negative, monotonic_now())),
        }
    }
}

} // verus!
