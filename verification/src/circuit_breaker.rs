//! The circuit breaker that guards Horizon requests.
//!
//! A closed circuit lets calls through and counts consecutive failures; enough
//! of them open it.  An open circuit rejects calls until its open duration has
//! passed, then turns half-open and admits a few trial calls: enough successes
//! close it again, a failure opens it again.
//!
//! Time is a monotonic clock reading in nanoseconds that the caller passes in.
use vstd::prelude::*;
use crate::config::CircuitBreakerConfig;
use crate::rate_limit_ledger::at_least_one;
use crate::stellar::{CircuitBreakerMetrics, CircuitState, StellarError, StellarResult};

verus! {

/// `x + 1`, or `x` where it is already `u64::MAX`.
pub open spec fn bump(x: u64) -> u64 {
    if x == u64::MAX {
        x
    } else {
        (x + 1) as u64
    }
}

/// `x - 1`, or 0 where `x` is 0.
pub open spec fn drop_one(x: u32) -> u32 {
    if x == 0 {
        0
    } else {
        (x - 1) as u32
    }
}

/// `x + 1`, or `x` where it is already `u32::MAX`.
pub open spec fn bump32(x: u32) -> u32 {
    if x == u32::MAX {
        x
    } else {
        (x + 1) as u32
    }
}

/// The mathematical state of a circuit breaker.
pub struct BreakerModel {
    pub config: CircuitBreakerConfig,
    pub state: CircuitState,
    /// When the circuit last opened.
    pub opened_at: Option<u128>,
    pub consecutive_failures: u32,
    pub half_open_in_flight: u32,
    pub half_open_successes: u32,
    pub metrics: CircuitBreakerMetrics,
}

/// How the breaker answers a request to make a call.
pub enum Admission {
    Admitted,
    Rejected { state: CircuitState, retry_after_ns: u128 },
}

impl BreakerModel {
    /// The failures that open a closed circuit.
    pub open spec fn failure_limit(self) -> u32 {
        at_least_one(self.config.failure_threshold)
    }

    /// The calls a half-open circuit admits, and the successes that close it.
    pub open spec fn half_open_limit(self) -> u32 {
        at_least_one(self.config.half_open_max_calls)
    }

    /// What every reachable state satisfies: an open circuit knows when it
    /// opened, a closed one has fewer failures than open it, and a half-open
    /// one counts no more trial calls in flight, and has seen fewer successes,
    /// than its limit.  The call that turned it half-open is not counted.
    pub open spec fn wf(self) -> bool {
        &&& self.state == CircuitState::Open ==> self.opened_at is Some
        &&& self.state == CircuitState::Closed ==> self.consecutive_failures < self.failure_limit()
        &&& self.state == CircuitState::HalfOpen ==> {
            &&& self.half_open_in_flight <= self.half_open_limit()
            &&& self.half_open_successes < self.half_open_limit()
        }
    }

    /// How long an open circuit has been open at `now` (zero for a clock
    /// reading before the opening).
    pub open spec fn open_for(self, now: u128) -> u128 {
        let opened = self.opened_at.unwrap();
        if now >= opened {
            (now - opened) as u128
        } else {
            0
        }
    }

    /// Whether an open circuit has stayed open for its whole open duration.
    pub open spec fn open_elapsed(self, now: u128) -> bool {
        self.open_for(now) >= self.config.open_duration_ns
    }

    /// The answer to a call request at `now`.
    pub open spec fn admission(self, now: u128) -> Admission {
        match self.state {
            CircuitState::Closed => Admission::Admitted,
            CircuitState::Open => if self.opened_at is None || self.open_elapsed(now) {
                Admission::Admitted
            } else {
                Admission::Rejected {
                    state: CircuitState::Open,
                    retry_after_ns: (self.config.open_duration_ns - self.open_for(now)) as u128,
                }
            },
            CircuitState::HalfOpen => if self.half_open_in_flight >= self.half_open_limit() {
                Admission::Rejected { state: CircuitState::HalfOpen, retry_after_ns: 0 }
            } else {
                Admission::Admitted
            },
        }
    }

    /// The metrics with one more rejected call.
    pub open spec fn with_rejection(self) -> BreakerModel {
        BreakerModel {
            metrics: CircuitBreakerMetrics {
                rejected_calls: bump(self.metrics.rejected_calls),
                ..self.metrics
            },
            ..self
        }
    }

    /// The state after a call request at `now`.
    pub open spec fn after_allow(self, now: u128) -> BreakerModel {
        match self.state {
            CircuitState::Closed => self,
            CircuitState::Open => match self.opened_at {
                Some(_) => if self.open_elapsed(now) {
                    BreakerModel {
                        state: CircuitState::HalfOpen,
                        half_open_in_flight: 0,
                        half_open_successes: 0,
                        ..self
                    }
                } else {
                    self.with_rejection()
                },
                None => BreakerModel { state: CircuitState::HalfOpen, ..self },
            },
            CircuitState::HalfOpen => if self.half_open_in_flight >= self.half_open_limit() {
                self.with_rejection()
            } else {
                BreakerModel { half_open_in_flight: (self.half_open_in_flight + 1) as u32, ..self }
            },
        }
    }

    /// The state after a call that succeeded.
    pub open spec fn after_success(self) -> BreakerModel {
        match self.state {
            CircuitState::Closed => BreakerModel {
                consecutive_failures: 0,
                metrics: CircuitBreakerMetrics {
                    successful_calls: bump(self.metrics.successful_calls),
                    ..self.metrics
                },
                ..self
            },
            CircuitState::HalfOpen => {
                let successes = bump32(self.half_open_successes);
                let metrics = CircuitBreakerMetrics {
                    half_open_successes: bump(self.metrics.half_open_successes),
                    successful_calls: bump(self.metrics.successful_calls),
                    ..self.metrics
                };
                if successes >= self.half_open_limit() {
                    BreakerModel {
                        state: CircuitState::Closed,
                        opened_at: None,
                        consecutive_failures: 0,
                        half_open_in_flight: drop_one(self.half_open_in_flight),
                        half_open_successes: successes,
                        metrics: CircuitBreakerMetrics { recoveries: bump(metrics.recoveries), ..metrics },
                        ..self
                    }
                } else {
                    BreakerModel {
                        half_open_in_flight: drop_one(self.half_open_in_flight),
                        half_open_successes: successes,
                        metrics,
                        ..self
                    }
                }
            },
            CircuitState::Open => self,
        }
    }

    /// The state after a call that failed in a way that counts, at `now`.
    pub open spec fn after_failure(self, now: u128) -> BreakerModel {
        match self.state {
            CircuitState::Closed => {
                let failures = bump32(self.consecutive_failures);
                let metrics = CircuitBreakerMetrics {
                    failed_calls: bump(self.metrics.failed_calls),
                    ..self.metrics
                };
                if failures >= self.failure_limit() {
                    BreakerModel {
                        state: CircuitState::Open,
                        opened_at: Some(now),
                        consecutive_failures: failures,
                        metrics: CircuitBreakerMetrics { trips: bump(metrics.trips), ..metrics },
                        ..self
                    }
                } else {
                    BreakerModel { consecutive_failures: failures, metrics, ..self }
                }
            },
            CircuitState::HalfOpen => BreakerModel {
                state: CircuitState::Open,
                opened_at: Some(now),
                half_open_in_flight: drop_one(self.half_open_in_flight),
                metrics: CircuitBreakerMetrics {
                    half_open_failures: bump(self.metrics.half_open_failures),
                    failed_calls: bump(self.metrics.failed_calls),
                    trips: bump(self.metrics.trips),
                    ..self.metrics
                },
                ..self
            },
            CircuitState::Open => self,
        }
    }

    /// The state after a call ended with `result` at `now`: a success, a
    /// failure that counts, or no change for a failure that does not.
    pub open spec fn after_result<T>(self, result: StellarResult<T>, now: u128) -> BreakerModel {
        match result {
            Ok(_) => self.after_success(),
            Err(e) => if e.trips_breaker() {
                self.after_failure(now)
            } else {
                self
            },
        }
    }
}

/// A fresh breaker: closed, with no failures and zero metrics.
pub open spec fn fresh_breaker(config: CircuitBreakerConfig) -> BreakerModel {
    BreakerModel {
        config,
        state: CircuitState::Closed,
        opened_at: None,
        consecutive_failures: 0,
        half_open_in_flight: 0,
        half_open_successes: 0,
        metrics: CircuitBreakerMetrics {
            trips: 0,
            recoveries: 0,
            half_open_successes: 0,
            half_open_failures: 0,
            rejected_calls: 0,
            successful_calls: 0,
            failed_calls: 0,
        },
    }
}

/// The circuit breaker.
#[derive(Debug)]
pub struct CircuitBreaker {
    config: CircuitBreakerConfig,
    state: CircuitState,
    opened_at: Option<u128>,
    consecutive_failures: u32,
    half_open_in_flight: u32,
    half_open_successes: u32,
    metrics: CircuitBreakerMetrics,
}

impl View for CircuitBreaker {
    type V = BreakerModel;

    closed spec fn view(&self) -> BreakerModel {
        BreakerModel {
            config: self.config,
            state: self.state,
            opened_at: self.opened_at,
            consecutive_failures: self.consecutive_failures,
            half_open_in_flight: self.half_open_in_flight,
            half_open_successes: self.half_open_successes,
            metrics: self.metrics,
        }
    }
}

/// `value`, or 1 where `value` is 0.
fn at_least_one_exec(value: u32) -> (r: u32)
    ensures
        r == at_least_one(value),
{
    if value >= 1 {
        value
    } else {
        1
    }
}

/// `x + 1`, saturating.
fn bump_exec(x: u64) -> (r: u64)
    ensures
        r == bump(x),
{
    x.saturating_add(1)
}

impl CircuitBreaker {
    #[verifier::type_invariant]
    spec fn inv(self) -> bool {
        self@.wf()
    }

    pub fn new(config: CircuitBreakerConfig) -> (b: Self)
        ensures
            b@ == fresh_breaker(config),
    {
        Self {
            config,
            state: CircuitState::Closed,
            opened_at: None,
            consecutive_failures: 0,
            half_open_in_flight: 0,
            half_open_successes: 0,
            metrics: CircuitBreakerMetrics {
                trips: 0,
                recoveries: 0,
                half_open_successes: 0,
                half_open_failures: 0,
                rejected_calls: 0,
                successful_calls: 0,
                failed_calls: 0,
            },
        }
    }

    pub fn state(&self) -> (s: CircuitState)
        ensures
            s == self@.state,
    {
        self.state
    }

    pub fn metrics(&self) -> (m: CircuitBreakerMetrics)
        ensures
            m == self@.metrics,
    {
        self.metrics
    }

    fn increment_trips(&mut self)
        ensures
            final(self)@ == (BreakerModel {
                metrics: CircuitBreakerMetrics { trips: bump(old(self)@.metrics.trips), ..old(self)@.metrics },
                ..old(self)@
            }),
    {
        proof {
            use_type_invariant(&*self);
        }
        self.metrics.trips = bump_exec(self.metrics.trips);
    }

    fn increment_recoveries(&mut self)
        ensures
            final(self)@ == (BreakerModel {
                metrics: CircuitBreakerMetrics {
                    recoveries: bump(old(self)@.metrics.recoveries),
                    ..old(self)@.metrics
                },
                ..old(self)@
            }),
    {
        proof {
            use_type_invariant(&*self);
        }
        self.metrics.recoveries = bump_exec(self.metrics.recoveries);
    }

    fn increment_rejected_calls(&mut self)
        ensures
            final(self)@ == old(self)@.with_rejection(),
    {
        proof {
            use_type_invariant(&*self);
        }
        self.metrics.rejected_calls = bump_exec(self.metrics.rejected_calls);
    }

    fn increment_successful_calls(&mut self)
        ensures
            final(self)@ == (BreakerModel {
                metrics: CircuitBreakerMetrics {
                    successful_calls: bump(old(self)@.metrics.successful_calls),
                    ..old(self)@.metrics
                },
                ..old(self)@
            }),
    {
        proof {
            use_type_invariant(&*self);
        }
        self.metrics.successful_calls = bump_exec(self.metrics.successful_calls);
    }

    fn increment_failed_calls(&mut self)
        ensures
            final(self)@ == (BreakerModel {
                metrics: CircuitBreakerMetrics {
                    failed_calls: bump(old(self)@.metrics.failed_calls),
                    ..old(self)@.metrics
                },
                ..old(self)@
            }),
    {
        proof {
            use_type_invariant(&*self);
        }
        self.metrics.failed_calls = bump_exec(self.metrics.failed_calls);
    }

    /// Asks to make a call at `now`: `Ok` where the circuit admits it, else the
    /// `CircuitOpen` error with the circuit's state and how long to wait.
    pub fn allow_call(&mut self, now: u128) -> (r: StellarResult<()>)
        ensures
            final(self)@ == old(self)@.after_allow(now),
            final(self)@.wf(),
            match old(self)@.admission(now) {
                Admission::Admitted => r is Ok,
                Admission::Rejected { state, retry_after_ns } => r matches Err(
                    StellarError::CircuitOpen { state: s, retry_after_ns: t },
                ) && s == state && t == retry_after_ns,
            },
    {
        proof {
            use_type_invariant(&*self);
        }
        match self.state {
            CircuitState::Closed => Ok(()),
            CircuitState::Open => {
                match self.opened_at {
                    Some(opened_at) => {
                        let elapsed = now.saturating_sub(opened_at);
                        if elapsed >= self.config.open_duration_ns {
                            self.half_open_in_flight = 0;
                            self.half_open_successes = 0;
                            self.state = CircuitState::HalfOpen;
                            Ok(())
                        } else {
                            let retry_after_ns = self.config.open_duration_ns - elapsed;
                            self.increment_rejected_calls();
                            Err(StellarError::CircuitOpen { state: self.state, retry_after_ns })
                        }
                    },
                    None => {
                        self.state = CircuitState::HalfOpen;
                        Ok(())
                    },
                }
            },
            CircuitState::HalfOpen => {
                let max_calls = at_least_one_exec(self.config.half_open_max_calls);
                if self.half_open_in_flight >= max_calls {
                    self.increment_rejected_calls();
                    Err(StellarError::CircuitOpen { state: self.state, retry_after_ns: 0 })
                } else {
                    self.half_open_in_flight = self.half_open_in_flight + 1;
                    Ok(())
                }
            },
        }
    }

    /// Records a call that succeeded.
    pub fn record_success(&mut self)
        ensures
            final(self)@ == old(self)@.after_success(),
            final(self)@.wf(),
    {
        proof {
            use_type_invariant(&*self);
        }
        match self.state {
            CircuitState::Closed => {
                self.consecutive_failures = 0;
                self.increment_successful_calls();
            },
            CircuitState::HalfOpen => {
                self.half_open_in_flight = self.half_open_in_flight.saturating_sub(1);
                let successes = self.half_open_successes.saturating_add(1);
                let should_close = successes >= at_least_one_exec(self.config.half_open_max_calls);
                self.metrics.half_open_successes = bump_exec(self.metrics.half_open_successes);
                self.increment_successful_calls();
                if should_close {
                    self.consecutive_failures = 0;
                    self.opened_at = None;
                    self.state = CircuitState::Closed;
                    self.half_open_successes = successes;
                    self.increment_recoveries();
                } else {
                    self.half_open_successes = successes;
                }
            },
            CircuitState::Open => {},
        }
    }

    /// Records a call that failed in a way that counts against the circuit, at `now`.
    pub fn record_failure(&mut self, now: u128)
        ensures
            final(self)@ == old(self)@.after_failure(now),
            final(self)@.wf(),
    {
        proof {
            use_type_invariant(&*self);
        }
        match self.state {
            CircuitState::Closed => {
                let failures = self.consecutive_failures.saturating_add(1);
                self.increment_failed_calls();
                if failures >= at_least_one_exec(self.config.failure_threshold) {
                    self.opened_at = Some(now);
                    self.state = CircuitState::Open;
                    self.consecutive_failures = failures;
                    self.increment_trips();
                } else {
                    self.consecutive_failures = failures;
                }
            },
            CircuitState::HalfOpen => {
                self.half_open_in_flight = self.half_open_in_flight.saturating_sub(1);
                self.metrics.half_open_failures = bump_exec(self.metrics.half_open_failures);
                self.increment_failed_calls();
                self.opened_at = Some(now);
                self.state = CircuitState::Open;
                self.increment_trips();
            },
            CircuitState::Open => {},
        }
    }

    /// Records how a call ended, at `now`: a success, a failure that counts,
    /// or nothing for a failure that does not.
    pub fn record_result<T>(&mut self, result: &StellarResult<T>, now: u128)
        ensures
            final(self)@ == old(self)@.after_result(*result, now),
            final(self)@.wf(),
    {
        match result {
            Ok(_) => self.record_success(),
            Err(err) => {
                if err.affects_circuit_breaker() {
                    self.record_failure(now);
                } else {
                    proof {
                        use_type_invariant(&*self);
                    }
                }
            },
        }
    }
}

/// Every counter of `m2` is at least the same counter of `m1`.
pub open spec fn metrics_grow(m1: CircuitBreakerMetrics, m2: CircuitBreakerMetrics) -> bool {
    &&& m1.trips <= m2.trips
    &&& m1.recoveries <= m2.recoveries
    &&& m1.half_open_successes <= m2.half_open_successes
    &&& m1.half_open_failures <= m2.half_open_failures
    &&& m1.rejected_calls <= m2.rejected_calls
    &&& m1.successful_calls <= m2.successful_calls
    &&& m1.failed_calls <= m2.failed_calls
}

/// Every operation keeps the breaker well formed.
pub proof fn lemma_operations_keep_wf<T>(b: BreakerModel, now: u128, result: StellarResult<T>)
    requires
        b.wf(),
    ensures
        b.after_allow(now).wf(),
        b.after_success().wf(),
        b.after_failure(now).wf(),
        b.after_result(result, now).wf(),
{
}

/// No operation ever lowers a metric, and none changes the configuration.
pub proof fn lemma_operations_grow_metrics<T>(b: BreakerModel, now: u128, result: StellarResult<T>)
    ensures
        metrics_grow(b.metrics, b.after_allow(now).metrics),
        metrics_grow(b.metrics, b.after_success().metrics),
        metrics_grow(b.metrics, b.after_failure(now).metrics),
        metrics_grow(b.metrics, b.after_result(result, now).metrics),
        b.after_allow(now).config == b.config,
        b.after_success().config == b.config,
        b.after_failure(now).config == b.config,
{
}

/// A closed circuit admits every call and is left as it was.
pub proof fn lemma_closed_admits(b: BreakerModel, now: u128)
    requires
        b.state == CircuitState::Closed,
    ensures
        b.admission(now) == Admission::Admitted,
        b.after_allow(now) == b,
{
}

/// An open circuit rejects calls until its open duration has passed, telling
/// the caller to retry after what remains of it, and counts each rejection.
pub proof fn lemma_open_rejects_until_elapsed(b: BreakerModel, now: u128)
    requires
        b.wf(),
        b.state == CircuitState::Open,
        !b.open_elapsed(now),
    ensures
        b.admission(now) matches Admission::Rejected { state, retry_after_ns } && state
            == CircuitState::Open && retry_after_ns == b.config.open_duration_ns - b.open_for(now)
            && 0 < retry_after_ns <= b.config.open_duration_ns,
        b.after_allow(now).state == CircuitState::Open,
        b.after_allow(now).metrics.rejected_calls == bump(b.metrics.rejected_calls),
{
}

/// Once its open duration has passed, an open circuit admits the call and
/// turns half-open with no trial calls counted yet.
pub proof fn lemma_open_half_opens_after_elapsed(b: BreakerModel, now: u128)
    requires
        b.wf(),
        b.state == CircuitState::Open,
        b.open_elapsed(now),
    ensures
        b.admission(now) == Admission::Admitted,
        b.after_allow(now).state == CircuitState::HalfOpen,
        b.after_allow(now).half_open_in_flight == 0,
        b.after_allow(now).half_open_successes == 0,
{
}

/// A half-open circuit admits a call only while fewer trial calls than its
/// limit are counted in flight, so it never counts more than its limit.  The
/// call that turned it half-open is not counted among them.
pub proof fn lemma_half_open_limits_calls(b: BreakerModel, now: u128)
    requires
        b.wf(),
        b.state == CircuitState::HalfOpen,
    ensures
        b.admission(now) == Admission::Admitted <==> b.half_open_in_flight < b.half_open_limit(),
        b.after_allow(now).half_open_in_flight <= b.half_open_limit(),
{
}

/// The breaker after failures at each of `times`, in order.
pub open spec fn after_failures(b: BreakerModel, times: Seq<u128>) -> BreakerModel
    decreases times.len(),
{
    if times.len() == 0 {
        b
    } else {
        after_failures(b, times.drop_last()).after_failure(times.last())
    }
}

proof fn lemma_failures_below_limit(b: BreakerModel, times: Seq<u128>)
    requires
        b.wf(),
        b.state == CircuitState::Closed,
        b.consecutive_failures + times.len() < b.failure_limit(),
    ensures
        after_failures(b, times).state == CircuitState::Closed,
        after_failures(b, times).consecutive_failures == b.consecutive_failures + times.len(),
        after_failures(b, times).metrics.trips == b.metrics.trips,
        after_failures(b, times).config == b.config,
    decreases times.len(),
{
    if times.len() > 0 {
        lemma_failures_below_limit(b, times.drop_last());
    }
}

/// A closed circuit opens at the failure that brings its consecutive failures
/// to the threshold, at that failure's time, and counts one trip; before that
/// it stays closed.
pub proof fn lemma_consecutive_failures_open(b: BreakerModel, times: Seq<u128>)
    requires
        b.wf(),
        b.state == CircuitState::Closed,
        b.consecutive_failures + times.len() == b.failure_limit(),
    ensures
        after_failures(b, times.drop_last()).state == CircuitState::Closed,
        after_failures(b, times).state == CircuitState::Open,
        after_failures(b, times).opened_at == Some(times.last()),
        after_failures(b, times).metrics.trips == bump(b.metrics.trips),
{
    lemma_failures_below_limit(b, times.drop_last());
}

/// A success in a closed circuit clears its failure count, so only
/// consecutive failures open it.
pub proof fn lemma_success_clears_failures(b: BreakerModel)
    requires
        b.state == CircuitState::Closed,
    ensures
        b.after_success().state == CircuitState::Closed,
        b.after_success().consecutive_failures == 0,
{
}

/// The success that brings a half-open circuit's successes to its limit closes
/// it, clears its opening time and failure count, and counts a recovery.
pub proof fn lemma_half_open_successes_close(b: BreakerModel)
    requires
        b.wf(),
        b.state == CircuitState::HalfOpen,
        b.half_open_successes + 1 == b.half_open_limit(),
    ensures
        b.after_success().state == CircuitState::Closed,
        b.after_success().opened_at is None,
        b.after_success().consecutive_failures == 0,
        b.after_success().metrics.recoveries == bump(b.metrics.recoveries),
        b.after_success().metrics.half_open_successes == bump(b.metrics.half_open_successes),
{
}

/// A failure while half-open opens the circuit again at the failure's time
/// and counts a trip.
pub proof fn lemma_half_open_failure_reopens(b: BreakerModel, now: u128)
    requires
        b.state == CircuitState::HalfOpen,
    ensures
        b.after_failure(now).state == CircuitState::Open,
        b.after_failure(now).opened_at == Some(now),
        b.after_failure(now).metrics.trips == bump(b.metrics.trips),
        b.after_failure(now).metrics.half_open_failures == bump(b.metrics.half_open_failures),
{
}

/// Failures that do not count against the circuit leave it as it was, and an
/// open circuit ignores the outcome of any call.
pub proof fn lemma_outcomes_ignored<T>(b: BreakerModel, result: StellarResult<T>, now: u128)
    ensures
        result is Err && !result->Err_0.trips_breaker() ==> b.after_result(result, now) == b,
        b.state == CircuitState::Open ==> b.after_result(result, now) == b,
{
}

/// One operation on a breaker: a call request at a time, a success, a
/// failure that counts at a time, or a failure that does not count.
pub enum BreakerOp {
    Allow(u128),
    Success,
    Failure(u128),
    Ignored,
}

impl BreakerModel {
    /// The state after `op`.  `record_result` is `Success`, `Failure` or
    /// `Ignored`, as `after_result` says.
    pub open spec fn apply(self, op: BreakerOp) -> BreakerModel {
        match op {
            BreakerOp::Allow(now) => self.after_allow(now),
            BreakerOp::Success => self.after_success(),
            BreakerOp::Failure(now) => self.after_failure(now),
            BreakerOp::Ignored => self,
        }
    }

    /// How the counters relate in every reachable state: no more recoveries
    /// than trips, no more trips than failed calls, no more half-open
    /// successes than successes, no more half-open failures than failures;
    /// and, until the trips saturate, a circuit that is not closed has tripped
    /// once more than it recovered.
    pub open spec fn counters_consistent(self) -> bool {
        let m = self.metrics;
        &&& m.recoveries <= m.trips
        &&& m.trips <= m.failed_calls
        &&& m.half_open_successes <= m.successful_calls
        &&& m.half_open_failures <= m.failed_calls
        &&& self.state != CircuitState::Closed && m.trips < u64::MAX ==> m.recoveries < m.trips
    }
}

/// The breaker after the operations `ops`, in order.
pub open spec fn run_ops(b: BreakerModel, ops: Seq<BreakerOp>) -> BreakerModel
    decreases ops.len(),
{
    if ops.len() == 0 {
        b
    } else {
        run_ops(b, ops.drop_last()).apply(ops.last())
    }
}

/// Every operation keeps the breaker well formed and its counters consistent,
/// and lowers no counter.
pub proof fn lemma_operation_keeps_counters(b: BreakerModel, op: BreakerOp)
    requires
        b.wf(),
        b.counters_consistent(),
    ensures
        b.apply(op).wf(),
        b.apply(op).counters_consistent(),
        metrics_grow(b.metrics, b.apply(op).metrics),
        b.apply(op).config == b.config,
{
}

/// Every state reached from a fresh breaker is well formed, with consistent
/// counters: recoveries <= trips <= failed calls, half-open successes <=
/// successful calls, half-open failures <= failed calls.
pub proof fn lemma_reachable_counters(config: CircuitBreakerConfig, ops: Seq<BreakerOp>)
    ensures
        run_ops(fresh_breaker(config), ops).wf(),
        run_ops(fresh_breaker(config), ops).counters_consistent(),
        run_ops(fresh_breaker(config), ops).config == config,
    decreases ops.len(),
{
    if ops.len() > 0 {
        lemma_reachable_counters(config, ops.drop_last());
        lemma_operation_keeps_counters(run_ops(fresh_breaker(config), ops.drop_last()), ops.last());
    }
}

/// Counters never decrease: after further operations every counter is at
/// least what it was.
pub proof fn lemma_counters_never_decrease(b: BreakerModel, ops: Seq<BreakerOp>, more: Seq<BreakerOp>)
    ensures
        metrics_grow(run_ops(b, ops).metrics, run_ops(b, ops + more).metrics),
    decreases more.len(),
{
    if more.len() == 0 {
        assert(ops + more =~= ops);
    } else {
        lemma_counters_never_decrease(b, ops, more.drop_last());
        assert((ops + more).drop_last() =~= ops + more.drop_last());
    }
}

/// A success recorded while half-open frees the trial call's slot and counts
/// one more half-open success; the circuit stays half-open until the
/// successes reach its limit, and closes then.
pub proof fn lemma_half_open_success_steps(b: BreakerModel)
    requires
        b.wf(),
        b.state == CircuitState::HalfOpen,
    ensures
        b.after_success().half_open_in_flight == if b.half_open_in_flight == 0 {
            0
        } else {
            b.half_open_in_flight - 1
        },
        b.after_success().half_open_successes == b.half_open_successes + 1,
        b.half_open_successes + 1 < b.half_open_limit() ==> b.after_success().state
            == CircuitState::HalfOpen,
        b.half_open_successes + 1 >= b.half_open_limit() ==> b.after_success().state
            == CircuitState::Closed,
        b.after_success().metrics.successful_calls >= b.metrics.successful_calls,
{
}

/// The breaker after `n` successes in a row.
pub open spec fn after_successes(b: BreakerModel, n: nat) -> BreakerModel
    decreases n,
{
    if n == 0 {
        b
    } else {
        after_successes(b, (n - 1) as nat).after_success()
    }
}

proof fn lemma_successes_below_limit(b: BreakerModel, k: nat)
    requires
        b.wf(),
        b.state == CircuitState::HalfOpen,
        b.half_open_successes + k < b.half_open_limit(),
    ensures
        after_successes(b, k).wf(),
        after_successes(b, k).state == CircuitState::HalfOpen,
        after_successes(b, k).half_open_successes == b.half_open_successes + k,
        after_successes(b, k).config == b.config,
        after_successes(b, k).metrics.recoveries == b.metrics.recoveries,
    decreases k,
{
    if k > 0 {
        lemma_successes_below_limit(b, (k - 1) as nat);
    }
}

/// From any half-open state, as many successes as are missing to reach the
/// half-open limit close the circuit, with exactly one recovery counted, and
/// no fewer successes do.
pub proof fn lemma_half_open_successes_reach_limit(b: BreakerModel)
    requires
        b.wf(),
        b.state == CircuitState::HalfOpen,
    ensures
        after_successes(b, (b.half_open_limit() - b.half_open_successes) as nat).state
            == CircuitState::Closed,
        after_successes(b, (b.half_open_limit() - b.half_open_successes) as nat).metrics.recoveries
            == bump(b.metrics.recoveries),
        forall|k: nat|
            k < b.half_open_limit() - b.half_open_successes ==> #[trigger] after_successes(
                b,
                k,
            ).state == CircuitState::HalfOpen,
{
    let n = (b.half_open_limit() - b.half_open_successes) as nat;
    lemma_successes_below_limit(b, (n - 1) as nat);
    assert forall|k: nat| k < n implies #[trigger] after_successes(b, k).state
        == CircuitState::HalfOpen by {
        lemma_successes_below_limit(b, k);
    }
}

/// Half-open admission: a call is admitted exactly when fewer trial calls than
/// the limit are in flight, and takes one more slot; a rejected call leaves
/// the slots as they were, so every further call at the limit is rejected too
/// until a trial call ends.
pub proof fn lemma_half_open_admission_slots(b: BreakerModel, now: u128, later: u128)
    requires
        b.wf(),
        b.state == CircuitState::HalfOpen,
    ensures
        b.half_open_in_flight < b.half_open_limit() ==> {
            &&& b.admission(now) == Admission::Admitted
            &&& b.after_allow(now).state == CircuitState::HalfOpen
            &&& b.after_allow(now).half_open_in_flight == b.half_open_in_flight + 1
            &&& b.after_allow(now).half_open_successes == b.half_open_successes
        },
        b.half_open_in_flight >= b.half_open_limit() ==> {
            &&& b.admission(now) == (Admission::Rejected {
                state: CircuitState::HalfOpen,
                retry_after_ns: 0,
            })
            &&& b.after_allow(now).state == CircuitState::HalfOpen
            &&& b.after_allow(now).half_open_in_flight == b.half_open_in_flight
            &&& b.after_allow(now).half_open_successes == b.half_open_successes
            &&& b.after_allow(now).metrics.rejected_calls == bump(b.metrics.rejected_calls)
            &&& b.after_allow(now).admission(later) == (Admission::Rejected {
                state: CircuitState::HalfOpen,
                retry_after_ns: 0,
            })
        },
{
}

/// A failure of the request itself (its transport, its timeout or a
/// retryable status) counts against the circuit just as a recorded failure
/// does; errors that are the caller's or the data's do not count.
pub proof fn lemma_request_failures_count(
    b: BreakerModel,
    now: u128,
    url: String,
    text: String,
    timeout_ns: u128,
    status: u16,
    source: serde_json::Error,
    state: CircuitState,
    retry_after_ns: u128,
)
    ensures
        (StellarError::Request { url, source: text }).trips_breaker(),
        (StellarError::Timeout { url, timeout_ns }).trips_breaker(),
        (StellarError::RetryableHttpStatus { status, url, body: text }).trips_breaker(),
        !(StellarError::NonRetryableHttpStatus { status, url, body: text }).trips_breaker(),
        !(StellarError::VerificationNotFound { hash: text }).trips_breaker(),
        !(StellarError::ResponseParse { url, body: text, source }).trips_breaker(),
        !(StellarError::CircuitOpen { state, retry_after_ns }).trips_breaker(),
        b.after_result::<()>(Err(StellarError::Request { url, source: text }), now)
            == b.after_failure(now),
        b.after_result::<()>(Err(StellarError::Timeout { url, timeout_ns }), now) == b.after_failure(
            now,
        ),
        b.after_result::<()>(
            Err(StellarError::RetryableHttpStatus { status, url, body: text }),
            now,
        ) == b.after_failure(now),
{
}

} // verus!
