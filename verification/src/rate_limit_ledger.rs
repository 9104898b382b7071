//! Per-issuer token-bucket rate limiting, as kept in a ledger.
//!
//! An issuer holds a number of tokens; tokens refill with elapsed seconds at a
//! configured rate and never beyond the burst allowance, and each operation
//! consumes tokens.
use vstd::prelude::*;

verus! {

/// The largest value a `u32` holds, as a mathematical integer.
pub open spec fn u32_max() -> int {
    0xffff_ffff
}

/// `x` clamped to the `u32` range from above: what saturating `u32` arithmetic yields.
pub open spec fn saturate_u32(x: int) -> u32
    recommends
        0 <= x,
{
    if x > u32_max() {
        u32::MAX
    } else {
        x as u32
    }
}

/// The smaller of two `u32` values.
pub open spec fn min_u32(a: u32, b: u32) -> u32 {
    if a <= b {
        a
    } else {
        b
    }
}

/// The number of whole seconds between `last` and `now` as a `u32` holds them:
/// the elapsed time taken modulo 2^32.
pub open spec fn elapsed_seconds_u32(last: u64, now: u64) -> u32
    recommends
        last < now,
{
    ((now - last) % 0x1_0000_0000) as u32
}

/// The token count after refilling `available` tokens from time `last` to time
/// `now` at `per_second` tokens a second, capped at `burst`.  When `now` is not
/// after `last` the count is unchanged.
pub open spec fn refilled_tokens(available: u32, last: u64, now: u64, per_second: u32, burst: u32) -> u32 {
    if now > last {
        let added = saturate_u32(elapsed_seconds_u32(last, now) * per_second);
        min_u32(saturate_u32(available + added), burst)
    } else {
        available
    }
}

/// `a * b`, or `u32::MAX` where the product does not fit.
fn saturating_mul_u32(a: u32, b: u32) -> (r: u32)
    ensures
        r == saturate_u32(a * b),
{
    match a.checked_mul(b) {
        Some(p) => p,
        None => u32::MAX,
    }
}

/// Per-issuer rate limit state stored in the contract ledger.
///
/// Tracks token consumption for rate limiting operations per issuer address.
/// Tokens refill over time at the configured rate (tokens per second).
#[derive(Clone, Debug)]
pub struct IssuerRateLimitState {
    /// Available tokens for this issuer
    pub available_tokens: u32,
    /// Last time tokens were refilled (ledger timestamp, in seconds)
    pub last_refill_timestamp: u64,
}

impl IssuerRateLimitState {
    /// The state after a refill at `now` with the given rate and burst: a
    /// later time adds tokens for the elapsed seconds; any time caps the count
    /// at the burst.
    pub open spec fn refilled(self, per_second: u32, burst: u32, now: u64) -> IssuerRateLimitState {
        if now > self.last_refill_timestamp {
            IssuerRateLimitState {
                available_tokens: refilled_tokens(
                    self.available_tokens,
                    self.last_refill_timestamp,
                    now,
                    per_second,
                    burst,
                ),
                last_refill_timestamp: now,
            }
        } else {
            IssuerRateLimitState {
                available_tokens: min_u32(self.available_tokens, burst),
                last_refill_timestamp: self.last_refill_timestamp,
            }
        }
    }

    /// Create a new rate limit state with full burst allowance.
    pub fn new(burst_allowance: u32, current_timestamp: u64) -> (s: Self)
        ensures
            s.available_tokens == burst_allowance,
            s.last_refill_timestamp == current_timestamp,
    {
        Self { available_tokens: burst_allowance, last_refill_timestamp: current_timestamp }
    }

    /// Calculate refilled tokens based on elapsed time and refill rate.
    ///
    /// Returns the new available token count, capped at `burst`.  A timestamp
    /// that is not after the last refill adds no tokens and keeps the refill
    /// time.
    pub fn refill(&mut self, per_second: u32, burst: u32, current_timestamp: u64) -> (r: u32)
        ensures
            *final(self) == old(self).refilled(per_second, burst, current_timestamp),
            r == final(self).available_tokens,
            r <= burst,
    {
        if current_timestamp > self.last_refill_timestamp {
            let elapsed: u64 = current_timestamp - self.last_refill_timestamp;
            let elapsed_seconds: u32 = elapsed as u32;
            assert(elapsed_seconds == (elapsed % 0x1_0000_0000) as u32) by (bit_vector)
                requires
                    elapsed_seconds == elapsed as u32,
            ;
            let tokens_to_add = saturating_mul_u32(elapsed_seconds, per_second);
            let total = self.available_tokens.saturating_add(tokens_to_add);
            self.available_tokens = if total <= burst {
                total
            } else {
                burst
            };
            self.last_refill_timestamp = current_timestamp;
        } else if self.available_tokens > burst {
            self.available_tokens = burst;
        }
        self.available_tokens
    }

    /// Try to consume tokens. Returns true if successful, false if rate limit exceeded.
    pub fn try_consume(&mut self, tokens_needed: u32) -> (ok: bool)
        ensures
            ok == (old(self).available_tokens >= tokens_needed),
            ok ==> final(self).available_tokens == old(self).available_tokens - tokens_needed,
            !ok ==> final(self).available_tokens == old(self).available_tokens,
            final(self).last_refill_timestamp == old(self).last_refill_timestamp,
    {
        if self.available_tokens >= tokens_needed {
            self.available_tokens = self.available_tokens - tokens_needed;
            true
        } else {
            false
        }
    }
}

/// A metric event that the rate limiter reports.
#[derive(Debug, Clone, PartialEq, Eq)]
pub enum RateLimitEvent {
    /// A check let an operation consume its tokens.
    TokenConsumed,
    /// A check found too few tokens.
    RateLimitViolation,
    /// The issuer whose check found too few tokens.
    RateLimitHit { issuer: String },
    /// The issuer whose tokens were refilled.
    RateLimitReset { issuer: String },
}

/// The metrics handle of a rate limiter: the events reported to it, in order,
/// until its owner takes them to record them.  The events are kept until
/// taken, so an owner should take them regularly.
pub struct RateLimitMetrics {
    events: Vec<RateLimitEvent>,
}

impl View for RateLimitMetrics {
    type V = Seq<RateLimitEvent>;

    closed spec fn view(&self) -> Seq<RateLimitEvent> {
        self.events@
    }
}

impl RateLimitMetrics {
    /// A handle with no events reported yet.
    pub fn new() -> (m: Self)
        ensures
            m@ == Seq::<RateLimitEvent>::empty(),
    {
        Self { events: Vec::new() }
    }

    /// The events reported so far, oldest first, which leave the handle.
    pub fn take_events(&mut self) -> (events: Vec<RateLimitEvent>)
        ensures
            events@ == old(self)@,
            final(self)@ == Seq::<RateLimitEvent>::empty(),
    {
        let mut events = Vec::new();
        std::mem::swap(&mut events, &mut self.events);
        events
    }

    fn report(&mut self, event: RateLimitEvent)
        ensures
            final(self)@ == old(self)@.push(event),
    {
        self.events.push(event);
    }
}

/// Whether `event` names the issuer whose text is `issuer`, as a hit.
pub open spec fn is_hit_for(event: RateLimitEvent, issuer: Seq<char>) -> bool {
    event matches RateLimitEvent::RateLimitHit { issuer: i } && i@ == issuer
}

/// Whether `event` names the issuer whose text is `issuer`, as a reset.
pub open spec fn is_reset_for(event: RateLimitEvent, issuer: Seq<char>) -> bool {
    event matches RateLimitEvent::RateLimitReset { issuer: i } && i@ == issuer
}

/// Whether `after` is `before` with the events a check reports appended: a
/// consumed token where the check passed, else a violation and then a hit
/// for the issuer.
pub open spec fn check_reported(
    before: Seq<RateLimitEvent>,
    after: Seq<RateLimitEvent>,
    ok: bool,
    issuer: Seq<char>,
) -> bool {
    if ok {
        after == before.push(RateLimitEvent::TokenConsumed)
    } else {
        &&& after.len() == before.len() + 2
        &&& after.subrange(0, before.len() as int) == before
        &&& after[before.len() as int] == RateLimitEvent::RateLimitViolation
        &&& is_hit_for(after[before.len() as int + 1], issuer)
    }
}

/// Whether `after` is `before` with a reset for the issuer appended.
pub open spec fn reset_reported(before: Seq<RateLimitEvent>, after: Seq<RateLimitEvent>, issuer: Seq<char>) -> bool {
    &&& after.len() == before.len() + 1
    &&& after.subrange(0, before.len() as int) == before
    &&& is_reset_for(after[before.len() as int], issuer)
}

/// The events reported to an optional metrics handle.
pub open spec fn reported(metrics: Option<RateLimitMetrics>) -> Option<Seq<RateLimitEvent>> {
    match metrics {
        Some(m) => Some(m@),
        None => None,
    }
}

/// Reports what a check found to the handle, if there is one.
fn report_check(metrics: &mut Option<RateLimitMetrics>, ok: bool, issuer_address: &str)
    ensures
        reported(*old(metrics)) is None ==> reported(*final(metrics)) is None,
        reported(*old(metrics)) is Some ==> reported(*final(metrics)) is Some && check_reported(
            reported(*old(metrics))->0,
            reported(*final(metrics))->0,
            ok,
            issuer_address@,
        ),
{
    match metrics {
        Some(m) => {
            if ok {
                m.report(RateLimitEvent::TokenConsumed);
            } else {
                let ghost before = m@;
                m.report(RateLimitEvent::RateLimitViolation);
                m.report(RateLimitEvent::RateLimitHit { issuer: String::from_str(issuer_address) });
                assert(m@.subrange(0, before.len() as int) =~= before);
            }
        },
        None => {},
    }
}

/// Reports a reset for the issuer to the handle, if there is one.
fn report_reset(metrics: &mut Option<RateLimitMetrics>, issuer_address: &str)
    ensures
        reported(*old(metrics)) is None ==> reported(*final(metrics)) is None,
        reported(*old(metrics)) is Some ==> reported(*final(metrics)) is Some && reset_reported(
            reported(*old(metrics))->0,
            reported(*final(metrics))->0,
            issuer_address@,
        ),
{
    match metrics {
        Some(m) => {
            let ghost before = m@;
            m.report(RateLimitEvent::RateLimitReset { issuer: String::from_str(issuer_address) });
            assert(m@.subrange(0, before.len() as int) =~= before);
        },
        None => {},
    }
}

/// Takes the events reported to the handle, if there is one.
fn take_reported(metrics: &mut Option<RateLimitMetrics>) -> (events: Vec<RateLimitEvent>)
    ensures
        reported(*old(metrics)) is None ==> events@.len() == 0 && reported(*final(metrics)) is None,
        reported(*old(metrics)) is Some ==> events@ == reported(*old(metrics))->0 && reported(
            *final(metrics),
        ) == Some(Seq::<RateLimitEvent>::empty()),
{
    match metrics {
        Some(m) => m.take_events(),
        None => Vec::new(),
    }
}

/// The rate and burst a limiter was configured with, and the events reported
/// to its metrics handle, if it has one.
pub struct RateLimitParams {
    pub per_second: u32,
    pub burst: u32,
    pub metrics: Option<Seq<RateLimitEvent>>,
}

/// `value`, or 1 where `value` is 0.
pub open spec fn at_least_one(value: u32) -> u32 {
    if value == 0 {
        1
    } else {
        value
    }
}

/// Manages per-issuer rate limiting for contract operations.
///
/// Holds the refill rate and burst allowance shared by every issuer, and the
/// metrics handle that checks and resets report to; the per-issuer token
/// counts live in [`IssuerRateLimitState`].
pub struct IssuerRateLimiter {
    per_second: u32,
    burst: u32,
    metrics: Option<RateLimitMetrics>,
}

impl View for IssuerRateLimiter {
    type V = RateLimitParams;

    closed spec fn view(&self) -> RateLimitParams {
        RateLimitParams {
            per_second: self.per_second,
            burst: self.burst,
            metrics: reported(self.metrics),
        }
    }
}

impl IssuerRateLimiter {
    /// Rate and burst are never zero.
    #[verifier::type_invariant]
    spec fn inv(self) -> bool {
        self.per_second >= 1 && self.burst >= 1
    }

    /// Create a new rate limiter with the specified per-second and burst
    /// settings, a zero setting raised to 1, reporting to `metrics`.
    pub fn new(per_second: u32, burst: u32, metrics: Option<RateLimitMetrics>) -> (l: Self)
        ensures
            l@.per_second == at_least_one(per_second),
            l@.burst == at_least_one(burst),
            l@.metrics == reported(metrics),
    {
        Self {
            per_second: if per_second >= 1 {
                per_second
            } else {
                1
            },
            burst: if burst >= 1 {
                burst
            } else {
                1
            },
            metrics,
        }
    }

    /// Check if an issuer can consume tokens: whether `available_tokens`
    /// covers `tokens_needed`.  Reports a consumed token to the metrics
    /// handle where it does, else a violation and a hit for the issuer.
    ///
    /// The issuer's token count is not updated.
    pub fn check(&mut self, issuer_address: &str, tokens_needed: u32, available_tokens: u32) -> (ok: bool)
        ensures
            ok == (available_tokens >= tokens_needed),
            final(self)@.per_second == old(self)@.per_second,
            final(self)@.burst == old(self)@.burst,
            old(self)@.metrics is None ==> final(self)@.metrics is None,
            old(self)@.metrics is Some ==> final(self)@.metrics is Some && check_reported(
                old(self)@.metrics->0,
                final(self)@.metrics->0,
                ok,
                issuer_address@,
            ),
    {
        proof {
            use_type_invariant(&*self);
        }
        let ok = available_tokens >= tokens_needed;
        let mut metrics = None;
        std::mem::swap(&mut metrics, &mut self.metrics);
        report_check(&mut metrics, ok, issuer_address);
        self.metrics = metrics;
        ok
    }

    /// Reports to the metrics handle that the issuer's tokens were refilled.
    pub fn record_reset(&mut self, issuer_address: &str)
        ensures
            final(self)@.per_second == old(self)@.per_second,
            final(self)@.burst == old(self)@.burst,
            old(self)@.metrics is None ==> final(self)@.metrics is None,
            old(self)@.metrics is Some ==> final(self)@.metrics is Some && reset_reported(
                old(self)@.metrics->0,
                final(self)@.metrics->0,
                issuer_address@,
            ),
    {
        proof {
            use_type_invariant(&*self);
        }
        let mut metrics = None;
        std::mem::swap(&mut metrics, &mut self.metrics);
        report_reset(&mut metrics, issuer_address);
        self.metrics = metrics;
    }

    /// Takes the events reported to the metrics handle so far, oldest first,
    /// for its owner to record; the handle keeps none.  Without a handle there
    /// are none.
    pub fn take_metric_events(&mut self) -> (events: Vec<RateLimitEvent>)
        ensures
            final(self)@.per_second == old(self)@.per_second,
            final(self)@.burst == old(self)@.burst,
            old(self)@.metrics is None ==> events@.len() == 0 && final(self)@.metrics is None,
            old(self)@.metrics is Some ==> events@ == old(self)@.metrics->0 && final(self)@.metrics
                == Some(Seq::<RateLimitEvent>::empty()),
    {
        proof {
            use_type_invariant(&*self);
        }
        let mut metrics = None;
        std::mem::swap(&mut metrics, &mut self.metrics);
        let events = take_reported(&mut metrics);
        self.metrics = metrics;
        events
    }

    /// Calculate refilled tokens for an issuer based on elapsed time, with this
    /// limiter's rate and burst.
    ///
    /// Does not modify state; use this to determine current available tokens
    /// for a rate limit check.
    pub fn calculate_refilled_tokens(
        &self,
        current_available: u32,
        last_refill_timestamp: u64,
        current_timestamp: u64,
    ) -> (r: u32)
        ensures
            r == refilled_tokens(
                current_available,
                last_refill_timestamp,
                current_timestamp,
                self@.per_second,
                self@.burst,
            ),
    {
        if current_timestamp > last_refill_timestamp {
            let elapsed: u64 = current_timestamp - last_refill_timestamp;
            let elapsed_seconds: u32 = elapsed as u32;
            assert(elapsed_seconds == (elapsed % 0x1_0000_0000) as u32) by (bit_vector)
                requires
                    elapsed_seconds == elapsed as u32,
            ;
            let tokens_to_add = saturating_mul_u32(elapsed_seconds, self.per_second);
            let total = current_available.saturating_add(tokens_to_add);
            if total <= self.burst {
                total
            } else {
                self.burst
            }
        } else {
            current_available
        }
    }

    /// The refill rate, in tokens per second.
    pub fn per_second(&self) -> (r: u32)
        ensures
            r == self@.per_second,
            r >= 1,
    {
        proof {
            use_type_invariant(self);
        }
        self.per_second
    }

    /// The burst allowance: the most tokens an issuer can hold after a refill.
    pub fn burst(&self) -> (r: u32)
        ensures
            r == self@.burst,
            r >= 1,
    {
        proof {
            use_type_invariant(self);
        }
        self.burst
    }
}

/// The smaller of two integers.
pub open spec fn min_int(a: int, b: int) -> int {
    if a <= b {
        a
    } else {
        b
    }
}

/// Within 2^32 seconds, a refill is the plain arithmetic one: the held tokens
/// plus rate times elapsed seconds, capped at the burst.
pub proof fn lemma_refill_closed_form(available: u32, last: u64, now: u64, per_second: u32, burst: u32)
    requires
        last < now,
        now - last < 0x1_0000_0000,
    ensures
        refilled_tokens(available, last, now, per_second, burst) == min_int(
            available + (now - last) * per_second,
            burst as int,
        ),
{
    let e = now - last;
    assert(e % 0x1_0000_0000 == e) by (nonlinear_arith)
        requires
            0 <= e < 0x1_0000_0000,
    ;
    assert(0 <= e * per_second) by (nonlinear_arith)
        requires
            0 <= e,
            0 <= per_second,
    ;
}

/// After a refill at a later time, an issuer never holds more than the burst.
pub proof fn lemma_refill_capped_at_burst(available: u32, last: u64, now: u64, per_second: u32, burst: u32)
    requires
        last < now,
    ensures
        refilled_tokens(available, last, now, per_second, burst) <= burst,
{
}

/// A refill never takes tokens away from an issuer that holds no more than the burst.
pub proof fn lemma_refill_keeps_tokens(available: u32, last: u64, now: u64, per_second: u32, burst: u32)
    requires
        available <= burst,
    ensures
        refilled_tokens(available, last, now, per_second, burst) >= available,
{
}

/// Refilling twice at the same time is the same as refilling once.
pub proof fn lemma_refill_idempotent(s: IssuerRateLimitState, per_second: u32, burst: u32, now: u64)
    ensures
        s.refilled(per_second, burst, now).refilled(per_second, burst, now) == s.refilled(
            per_second,
            burst,
            now,
        ),
{
}

/// Refilling at `t1` and then at `t2` gives the same state as refilling once at
/// `t2`, as long as less than 2^32 seconds pass in all: the refill depends on
/// the elapsed time only, not on how often it is observed.
pub proof fn lemma_refill_path_independent(
    s: IssuerRateLimitState,
    per_second: u32,
    burst: u32,
    t1: u64,
    t2: u64,
)
    requires
        s.last_refill_timestamp <= t1 <= t2,
        t2 - s.last_refill_timestamp < 0x1_0000_0000,
    ensures
        s.refilled(per_second, burst, t1).refilled(per_second, burst, t2) == s.refilled(
            per_second,
            burst,
            t2,
        ),
{
    let t0 = s.last_refill_timestamp;
    let a = s.available_tokens;
    if t0 < t1 && t1 < t2 {
        lemma_refill_closed_form(a, t0, t1, per_second, burst);
        lemma_refill_closed_form(a, t0, t2, per_second, burst);
        let mid = s.refilled(per_second, burst, t1).available_tokens;
        lemma_refill_closed_form(mid, t1, t2, per_second, burst);
        assert((t2 - t0) * per_second == (t1 - t0) * per_second + (t2 - t1) * per_second)
            by (nonlinear_arith);
        assert(0 <= (t2 - t1) * per_second) by (nonlinear_arith)
            requires
                t1 <= t2,
        ;
    }
}

/// Refilling at a later time never yields fewer tokens, for an issuer that
/// holds no more than the burst, as long as less than 2^32 seconds have passed
/// since its last refill.
pub proof fn lemma_refill_monotone_in_time(
    s: IssuerRateLimitState,
    per_second: u32,
    burst: u32,
    t1: u64,
    t2: u64,
)
    requires
        s.available_tokens <= burst,
        t1 <= t2,
        t2 - s.last_refill_timestamp < 0x1_0000_0000,
    ensures
        s.refilled(per_second, burst, t1).available_tokens <= s.refilled(
            per_second,
            burst,
            t2,
        ).available_tokens,
{
    let t0 = s.last_refill_timestamp;
    let a = s.available_tokens;
    if t0 < t1 {
        lemma_refill_closed_form(a, t0, t1, per_second, burst);
        lemma_refill_closed_form(a, t0, t2, per_second, burst);
        assert((t1 - t0) * per_second <= (t2 - t0) * per_second) by (nonlinear_arith)
            requires
                0 <= t1 - t0 <= t2 - t0,
                0 <= per_second,
        ;
    } else if t0 < t2 {
        lemma_refill_keeps_tokens(a, t0, t2, per_second, burst);
    }
}

/// The limiter's stateless computation agrees with refilling an issuer's
/// state with the limiter's rate and burst, except where no time has passed
/// and the issuer holds more than the burst: the computation then returns the
/// count as it is, while the refill caps it.
pub proof fn lemma_limiter_matches_state_refill(
    limiter: IssuerRateLimiter,
    s: IssuerRateLimitState,
    now: u64,
)
    requires
        now > s.last_refill_timestamp || s.available_tokens <= limiter@.burst,
    ensures
        refilled_tokens(
            s.available_tokens,
            s.last_refill_timestamp,
            now,
            limiter@.per_second,
            limiter@.burst,
        ) == s.refilled(limiter@.per_second, limiter@.burst, now).available_tokens,
{
}

} // verus!
