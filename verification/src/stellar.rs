//! Results and errors of Horizon requests, and the computations that turn a
//! Horizon reply into them.
use vstd::prelude::*;
use vstd::string::*;

verus! {

/// `serde_json::Error`, carried by a response that could not be parsed.
#[verifier::external_type_specification]
#[verifier::external_body]
pub struct ExJsonError(serde_json::Error);

/// The three states of the circuit breaker.
#[derive(Debug, Clone, Copy, PartialEq, Eq, Structural)]
pub enum CircuitState {
    /// Calls pass; consecutive failures are counted.
    Closed,
    /// Calls are rejected until the open duration has passed.
    Open,
    /// A limited number of trial calls pass.
    HalfOpen,
}

impl CircuitState {
    /// The state's name as it is displayed: "closed", "open" or "half-open".
    pub fn as_str(&self) -> (s: &'static str)
        ensures
            s@ == match self {
                CircuitState::Closed => "closed"@,
                CircuitState::Open => "open"@,
                CircuitState::HalfOpen => "half-open"@,
            },
    {
        match self {
            CircuitState::Closed => "closed",
            CircuitState::Open => "open",
            CircuitState::HalfOpen => "half-open",
        }
    }
}

/// Counters of what the circuit breaker saw and did.
#[derive(Debug, Clone, Copy, Default, PartialEq, Eq, Structural)]
pub struct CircuitBreakerMetrics {
    pub trips: u64,
    pub recoveries: u64,
    pub half_open_successes: u64,
    pub half_open_failures: u64,
    pub rejected_calls: u64,
    pub successful_calls: u64,
    pub failed_calls: u64,
}

/// Why a Stellar operation failed.  Durations are in nanoseconds.
#[derive(Debug)]
#[allow(inconsistent_fields)]
pub enum StellarError {
    /// The circuit breaker rejected the call.
    CircuitOpen { state: CircuitState, retry_after_ns: u128 },
    /// The request could not be sent or answered.
    Request { url: String, source: String },
    /// The request timed out.
    Timeout { url: String, timeout_ns: u128 },
    /// Horizon answered with a status worth retrying (408, 429, 5xx).
    RetryableHttpStatus { status: u16, url: String, body: String },
    /// Horizon answered with any other failure status.
    NonRetryableHttpStatus { status: u16, url: String, body: String },
    /// Horizon's success body could not be parsed.
    ResponseParse { url: String, body: String, source: serde_json::Error },
    /// No transaction matched the hash.
    VerificationNotFound { hash: String },
    /// The operation failed on every attempt; `final_error` is the last failure.
    RetryExhausted {
        operation: &'static str,
        attempts: u32,
        retries_attempted: u32,
        final_error: Box<StellarError>,
    },
}

/// The outcome of a Stellar operation.
pub type StellarResult<T> = Result<T, StellarError>;

impl StellarError {
    /// Whether retrying the operation may help: every failure of the request
    /// or of its transport, a retryable status or an unparsable body.
    pub open spec fn retryable(self) -> bool
        decreases self,
    {
        match self {
            StellarError::CircuitOpen { .. } => true,
            StellarError::Request { .. } => true,
            StellarError::Timeout { .. } => true,
            StellarError::RetryableHttpStatus { .. } => true,
            StellarError::ResponseParse { .. } => true,
            StellarError::RetryExhausted { final_error, .. } => (*final_error).retryable(),
            StellarError::NonRetryableHttpStatus { .. } => false,
            StellarError::VerificationNotFound { .. } => false,
        }
    }

    /// Whether the failure counts against the circuit breaker: one of the
    /// request, its timeout or a retryable status.
    pub open spec fn trips_breaker(self) -> bool
        decreases self,
    {
        match self {
            StellarError::RetryExhausted { final_error, .. } => (*final_error).trips_breaker(),
            StellarError::Request { .. } => true,
            StellarError::Timeout { .. } => true,
            StellarError::RetryableHttpStatus { .. } => true,
            _ => false,
        }
    }

    pub fn is_retryable(&self) -> (r: bool)
        ensures
            r == self.retryable(),
        decreases self,
    {
        match self {
            StellarError::CircuitOpen { .. } => true,
            StellarError::Request { .. } => true,
            StellarError::Timeout { .. } => true,
            StellarError::RetryableHttpStatus { .. } => true,
            StellarError::ResponseParse { .. } => true,
            StellarError::RetryExhausted { final_error, .. } => final_error.is_retryable(),
            StellarError::NonRetryableHttpStatus { .. } => false,
            StellarError::VerificationNotFound { .. } => false,
        }
    }

    pub fn affects_circuit_breaker(&self) -> (r: bool)
        ensures
            r == self.trips_breaker(),
        decreases self,
    {
        match self {
            StellarError::RetryExhausted { final_error, .. } => final_error.affects_circuit_breaker(),
            StellarError::Request { .. } => true,
            StellarError::Timeout { .. } => true,
            StellarError::RetryableHttpStatus { .. } => true,
            _ => false,
        }
    }
}

/// A transaction as recorded by the service.
#[derive(Debug, Clone)]
pub struct TransactionRecord {
    pub transaction_id: String,
    pub timestamp: i64,
    pub verified: bool,
}

/// Whether a hash was found on the ledger, and the matching transaction.
#[derive(Debug, Clone, PartialEq, Eq)]
pub struct VerificationResult {
    pub verified: bool,
    pub transaction_id: Option<String>,
    pub timestamp: Option<i64>,
}

/// The fields of a Horizon transaction record that verification reads.
#[derive(Debug, Clone)]
pub struct HorizonRecord {
    pub hash: Option<String>,
    pub created_at: Option<String>,
}

/// The Unix time, in seconds, of an RFC 3339 date-time text, or `None` where
/// the text is no such date-time.
pub uninterp spec fn rfc3339_unix_seconds(text: Seq<char>) -> Option<i64>;

/// Parses an RFC 3339 timestamp into Unix seconds.
///
/// Calls `chrono::DateTime::parse_from_rfc3339` and reads the `timestamp()` of
/// its result.  The contract names the result and claims that it depends on
/// the text alone.
#[verifier::external_body]
fn parse_horizon_timestamp(value: &str) -> (r: Option<i64>)
    ensures
        r == rfc3339_unix_seconds(value@),
{
    match chrono::DateTime::parse_from_rfc3339(value) {
        Ok(timestamp) => Some(timestamp.timestamp()),
        Err(_) => None,
    }
}

/// A hash text, kept only where it is not empty.
pub open spec fn non_empty_hash(hash: Option<String>) -> Option<String> {
    match hash {
        Some(h) => if h@.len() == 0 {
            None
        } else {
            Some(h)
        },
        None => None,
    }
}

/// The result of a verification that found a transaction with the given hash
/// and time: an empty hash counts as none.
pub fn found_verification(hash: Option<String>, timestamp: Option<i64>) -> (r: VerificationResult)
    ensures
        r.verified,
        r.transaction_id == non_empty_hash(hash),
        r.timestamp == timestamp,
{
    let transaction_id = match hash {
        Some(h) => if h.as_str().is_empty() {
            None
        } else {
            Some(h)
        },
        None => None,
    };
    VerificationResult { verified: true, transaction_id, timestamp }
}

/// The verification result for the first transaction record Horizon returned,
/// if any.
pub fn verification_from_record(record: Option<HorizonRecord>) -> (r: VerificationResult)
    ensures
        match record {
            Some(rec) => {
                &&& r.verified
                &&& r.transaction_id == non_empty_hash(rec.hash)
                &&& r.timestamp == match rec.created_at {
                    Some(c) => rfc3339_unix_seconds(c@),
                    None => None,
                }
            },
            None => !r.verified && r.transaction_id is None && r.timestamp is None,
        },
{
    match record {
        Some(rec) => {
            let timestamp = match &rec.created_at {
                Some(c) => parse_horizon_timestamp(c.as_str()),
                None => None,
            };
            found_verification(rec.hash, timestamp)
        },
        None => VerificationResult { verified: false, transaction_id: None, timestamp: None },
    }
}

/// Whether an HTTP status reports success (2xx).
pub open spec fn success_status(status: u16) -> bool {
    200 <= status <= 299
}

/// Whether an HTTP status is worth retrying: 408, 429 or 5xx.
pub open spec fn retryable_status(status: u16) -> bool {
    status == 408 || status == 429 || (500 <= status && status <= 599)
}

pub fn is_retryable_status(status: u16) -> (r: bool)
    ensures
        r == retryable_status(status),
{
    status == 408 || status == 429 || (500 <= status && status <= 599)
}

/// The most characters of a response body that an error keeps.
pub const MAX_BODY_CHARS: usize = 512;

/// A body as an error keeps it: whole up to 512 characters, else its first
/// 512 characters followed by "...".
pub open spec fn truncated(body: Seq<char>) -> Seq<char> {
    if body.len() <= MAX_BODY_CHARS {
        body
    } else {
        body.take(MAX_BODY_CHARS as int) + "..."@
    }
}

pub fn truncate_body(body: &str) -> (r: String)
    ensures
        r@ == truncated(body@),
{
    if body.unicode_len() <= MAX_BODY_CHARS {
        String::from_str(body)
    } else {
        let head = body.substring_char(0, MAX_BODY_CHARS);
        String::from_str(head).concat("...")
    }
}

/// `s` without the characters `c` at its end.
pub open spec fn trim_trailing(s: Seq<char>, c: char) -> Seq<char>
    decreases s.len(),
{
    if s.len() > 0 && s.last() == c {
        trim_trailing(s.drop_last(), c)
    } else {
        s
    }
}

/// The URL without its trailing slashes.
pub fn trim_trailing_slash(value: &str) -> (r: String)
    ensures
        r@ == trim_trailing(value@, '/'),
{
    let mut end = value.unicode_len();
    assert(value@.take(end as int) =~= value@);
    while end > 0 && value.get_char(end - 1) == '/'
        invariant
            end <= value@.len(),
            trim_trailing(value@.take(end as int), '/') == trim_trailing(value@, '/'),
        decreases end,
    {
        assert(value@.take(end as int).drop_last() =~= value@.take(end - 1));
        end = end - 1;
    }
    let kept = value.substring_char(0, end);
    assert(kept@ =~= value@.take(end as int));
    String::from_str(kept)
}

/// The Horizon URL that looks up transactions by memo.
pub fn transactions_url(horizon_url: &str, hash: &str) -> (r: String)
    ensures
        r@ == horizon_url@ + "/transactions?memo="@ + hash@,
{
    String::from_str(horizon_url).concat("/transactions?memo=").concat(hash)
}

/// The error for a request that got no HTTP answer.
pub fn transport_error(url: String, timeout_ns: u128, timed_out: bool, source: String) -> (e: StellarError)
    ensures
        timed_out ==> e == (StellarError::Timeout { url, timeout_ns }),
        !timed_out ==> e == (StellarError::Request { url, source }),
{
    if timed_out {
        StellarError::Timeout { url, timeout_ns }
    } else {
        StellarError::Request { url, source }
    }
}

/// Accepts a success status; any other status becomes the matching error,
/// holding the truncated body.
pub fn check_response_status(status: u16, url: String, body: &str) -> (r: Result<(), StellarError>)
    ensures
        success_status(status) <==> r is Ok,
        !success_status(status) && retryable_status(status) ==> (r matches Err(
            StellarError::RetryableHttpStatus { status: s, url: u, body: b },
        ) && s == status && u == url && b@ == truncated(body@)),
        !success_status(status) && !retryable_status(status) ==> (r matches Err(
            StellarError::NonRetryableHttpStatus { status: s, url: u, body: b },
        ) && s == status && u == url && b@ == truncated(body@)),
{
    if 200 <= status && status <= 299 {
        Ok(())
    } else if is_retryable_status(status) {
        Err(StellarError::RetryableHttpStatus { status, url, body: truncate_body(body) })
    } else {
        Err(StellarError::NonRetryableHttpStatus { status, url, body: truncate_body(body) })
    }
}

/// The error for a success body that could not be parsed.
pub fn response_parse_error(url: String, body: &str, source: serde_json::Error) -> (e: StellarError)
    ensures
        e matches StellarError::ResponseParse { url: u, body: b, source: s } && u == url && b@
            == truncated(body@) && s == source,
{
    StellarError::ResponseParse { url, body: truncate_body(body), source }
}

/// Which failures are worth retrying: every failure of the request or its
/// transport (sent or not, timed out, a retryable status, an unparsable body)
/// and a rejection by the circuit breaker; not a non-retryable status nor a
/// missing transaction.  Exhausted retries are worth retrying exactly when
/// their final failure is.
pub proof fn lemma_retryable_failures(
    url: String,
    text: String,
    timeout_ns: u128,
    status: u16,
    source: serde_json::Error,
    state: CircuitState,
    retry_after_ns: u128,
    operation: &'static str,
    attempts: u32,
    retries_attempted: u32,
    final_error: StellarError,
)
    ensures
        (StellarError::Request { url, source: text }).retryable(),
        (StellarError::Timeout { url, timeout_ns }).retryable(),
        (StellarError::RetryableHttpStatus { status, url, body: text }).retryable(),
        (StellarError::ResponseParse { url, body: text, source }).retryable(),
        (StellarError::CircuitOpen { state, retry_after_ns }).retryable(),
        !(StellarError::NonRetryableHttpStatus { status, url, body: text }).retryable(),
        !(StellarError::VerificationNotFound { hash: text }).retryable(),
        (StellarError::RetryExhausted {
            operation,
            attempts,
            retries_attempted,
            final_error: Box::new(final_error),
        }).retryable() == final_error.retryable(),
        (StellarError::RetryExhausted {
            operation,
            attempts,
            retries_attempted,
            final_error: Box::new(final_error),
        }).trips_breaker() == final_error.trips_breaker(),
{
}

/// A transport error is retryable and counts against the circuit breaker,
/// whether it timed out or not.
pub proof fn lemma_transport_errors_retryable(url: String, timeout_ns: u128, timed_out: bool, source: String)
    ensures
        ({
            let e = if timed_out {
                StellarError::Timeout { url, timeout_ns }
            } else {
                StellarError::Request { url, source }
            };
            e.retryable() && e.trips_breaker()
        }),
{
}

} // verus!
