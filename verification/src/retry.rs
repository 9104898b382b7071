//! Retrying Horizon requests: exponential backoff, and the decision taken
//! after each attempt.
//!
//! The caller performs each attempt and each wait; the functions here say,
//! from the attempt's number and outcome, whether to stop and with what
//! result, or how long to wait before the next attempt.
use vstd::prelude::*;
use crate::config::{RetryJitter, RetryPolicy};
use crate::rate_limit_ledger::min_int;
use crate::stellar::{StellarError, StellarResult};

verus! {

/// 2 to the power `n`.
pub open spec fn pow2(n: nat) -> nat
    decreases n,
{
    if n == 0 {
        1
    } else {
        2 * pow2((n - 1) as nat)
    }
}

proof fn lemma_pow2_monotone(i: nat, j: nat)
    requires
        i <= j,
    ensures
        pow2(i) <= pow2(j),
    decreases j,
{
    if i < j {
        lemma_pow2_monotone(i, (j - 1) as nat);
    }
}

proof fn lemma_pow2_31()
    ensures
        pow2(31) == 0x8000_0000,
{
    reveal_with_fuel(pow2, 32);
}

/// The exponent of the backoff after attempt `attempt`: the attempt number, at most 31.
pub open spec fn backoff_exponent(attempt: u32) -> nat {
    if attempt <= 31 {
        attempt as nat
    } else {
        31
    }
}

/// The delay, in nanoseconds, before the retry that follows attempt
/// `attempt` (counted from 0): the base delay doubled once per attempt,
/// capped at the maximum delay.
pub open spec fn backoff_ns(policy: RetryPolicy, attempt: u32) -> u128 {
    min_int(
        policy.base_delay_ns * pow2(backoff_exponent(attempt)),
        policy.max_delay_ns as int,
    ) as u128
}

/// How long to wait before a retry.
#[derive(Debug, Clone, Copy, PartialEq, Eq, Structural)]
pub enum RetryDelay {
    /// Exactly this many nanoseconds.
    Exact(u128),
    /// A duration drawn uniformly between zero and this many nanoseconds.
    UpTo(u128),
}

/// The delay before the retry that follows attempt `attempt`, under the policy's jitter.
pub open spec fn retry_delay_spec(policy: RetryPolicy, attempt: u32) -> RetryDelay {
    match policy.jitter {
        RetryJitter::Disabled => RetryDelay::Exact(backoff_ns(policy, attempt)),
        RetryJitter::Full => RetryDelay::UpTo(backoff_ns(policy, attempt)),
    }
}

/// The delay before the retry that follows attempt `attempt`.
pub fn retry_delay(policy: &RetryPolicy, attempt: u32) -> (d: RetryDelay)
    ensures
        d == retry_delay_spec(*policy, attempt),
{
    let exponent: u32 = if attempt <= 31 {
        attempt
    } else {
        31
    };
    let mut multiplier: u128 = 1;
    let mut i: u32 = 0;
    while i < exponent
        invariant
            i <= exponent <= 31,
            multiplier == pow2(i as nat),
        decreases exponent - i,
    {
        proof {
            lemma_pow2_monotone(i as nat, 30);
            lemma_pow2_monotone(30, 31);
            lemma_pow2_31();
            assert(pow2(30) * 2 == pow2(31));
        }
        multiplier = multiplier * 2;
        i = i + 1;
    }
    let capped = match policy.base_delay_ns.checked_mul(multiplier) {
        Some(exponential) => if exponential <= policy.max_delay_ns {
            exponential
        } else {
            policy.max_delay_ns
        },
        None => policy.max_delay_ns,
    };
    match policy.jitter {
        RetryJitter::Disabled => RetryDelay::Exact(capped),
        RetryJitter::Full => RetryDelay::UpTo(capped),
    }
}

/// Attempts the policy allows: one more than its retries, at most `u32::MAX`.
pub open spec fn max_attempts(policy: RetryPolicy) -> u32 {
    if policy.max_retries == u32::MAX {
        u32::MAX
    } else {
        (policy.max_retries + 1) as u32
    }
}

/// What to do after an attempt of a retried operation.
pub enum RetryStep<T> {
    /// Stop, with this result.
    Finished(StellarResult<T>),
    /// Wait, then make the next attempt.
    RetryAfter(RetryDelay),
}

/// The decision after attempt `attempt` (counted from 0) of a hash
/// verification ended with `outcome`: a success ends the loop with it; a
/// retryable failure with attempts left waits for the backoff; any other
/// failure ends the loop with `RetryExhausted` for the attempts made so far.
pub fn verify_retry_step<T>(policy: &RetryPolicy, attempt: u32, outcome: StellarResult<T>) -> (step: RetryStep<T>)
    requires
        attempt < max_attempts(*policy),
    ensures
        outcome is Ok ==> step == RetryStep::<T>::Finished(outcome),
        outcome is Err && outcome->Err_0.retryable() && attempt + 1 < max_attempts(*policy) ==> step
            == RetryStep::<T>::RetryAfter(retry_delay_spec(*policy, attempt)),
        outcome is Err && !(outcome->Err_0.retryable() && attempt + 1 < max_attempts(*policy)) ==> (
        step matches RetryStep::Finished(
            Err(
                StellarError::RetryExhausted {
                    operation: op,
                    attempts: n,
                    retries_attempted: r,
                    final_error: f,
                },
            ),
        ) && op@ == "verify_hash"@ && n == attempt + 1 && r == attempt && *f == outcome->Err_0),
{
    match outcome {
        Ok(v) => RetryStep::Finished(Ok(v)),
        Err(err) => {
            let attempts_left = attempt + 1 < policy.max_retries.saturating_add(1);
            if err.is_retryable() && attempts_left {
                RetryStep::RetryAfter(retry_delay(policy, attempt))
            } else {
                RetryStep::Finished(
                    Err(
                        StellarError::RetryExhausted {
                            operation: "verify_hash",
                            attempts: attempt + 1,
                            retries_attempted: attempt,
                            final_error: Box::new(err),
                        },
                    ),
                )
            }
        },
    }
}

/// What to do after an attempt of the connection check.
pub enum ConnectionCheckStep {
    /// Horizon answered with success.
    Connected,
    /// Wait, then check again.
    RetryAfter(RetryDelay),
    /// Every attempt failed.
    GaveUp(StellarError),
}

/// The decision after attempt `attempt` (counted from 0) of the connection
/// check, which reached Horizon with success or not.  After the last attempt
/// the error names every attempt allowed, and as its final error the failure
/// of the attempt before the last, or a plain "connection check failed" where
/// there was only one attempt.
pub fn connection_check_step(policy: &RetryPolicy, horizon_url: &String, attempt: u32, reachable: bool) -> (step: ConnectionCheckStep)
    requires
        attempt < max_attempts(*policy),
    ensures
        reachable ==> step == ConnectionCheckStep::Connected,
        !reachable && attempt + 1 < max_attempts(*policy) ==> step == ConnectionCheckStep::RetryAfter(
            retry_delay_spec(*policy, attempt),
        ),
        !reachable && attempt + 1 == max_attempts(*policy) ==> (step matches ConnectionCheckStep::GaveUp(
            StellarError::RetryExhausted {
                operation: op,
                attempts: n,
                retries_attempted: r,
                final_error: f,
            },
        ) && op@ == "check_connection"@ && n == max_attempts(*policy) && r == policy.max_retries
            && (*f matches StellarError::Request { url: u, source: s } && u == *horizon_url && s@ == (
        if attempt == 0 {
            "connection check failed"@
        } else {
            "connection check returned a non-success response"@
        }))),
{
    if reachable {
        return ConnectionCheckStep::Connected;
    }
    let max_attempts = policy.max_retries.saturating_add(1);
    if attempt + 1 < max_attempts {
        ConnectionCheckStep::RetryAfter(retry_delay(policy, attempt))
    } else {
        let source = if attempt == 0 {
            String::from_str("connection check failed")
        } else {
            String::from_str("connection check returned a non-success response")
        };
        let final_error = StellarError::Request { url: horizon_url.clone(), source };
        ConnectionCheckStep::GaveUp(
            StellarError::RetryExhausted {
                operation: "check_connection",
                attempts: max_attempts,
                retries_attempted: policy.max_retries,
                final_error: Box::new(final_error),
            },
        )
    }
}

/// The backoff never exceeds the policy's maximum delay.
pub proof fn lemma_backoff_capped(policy: RetryPolicy, attempt: u32)
    ensures
        backoff_ns(policy, attempt) <= policy.max_delay_ns,
{
}

/// The backoff never shrinks from one attempt to the next.
pub proof fn lemma_backoff_monotone(policy: RetryPolicy, a1: u32, a2: u32)
    requires
        a1 <= a2,
    ensures
        backoff_ns(policy, a1) <= backoff_ns(policy, a2),
{
    let e1 = backoff_exponent(a1);
    let e2 = backoff_exponent(a2);
    lemma_pow2_monotone(e1, e2);
    let b = policy.base_delay_ns as int;
    assert(b * pow2(e1) <= b * pow2(e2)) by (nonlinear_arith)
        requires
            0 <= b,
            pow2(e1) <= pow2(e2),
    ;
}

/// Below the cap and before the exponent saturates, each retry waits exactly
/// twice as long as the one before.
pub proof fn lemma_backoff_doubles(policy: RetryPolicy, attempt: u32)
    requires
        attempt < 31,
        policy.base_delay_ns * pow2(attempt as nat) * 2 <= policy.max_delay_ns,
    ensures
        backoff_ns(policy, (attempt + 1) as u32) == 2 * backoff_ns(policy, attempt),
{
    lemma_pow2_monotone(attempt as nat, (attempt + 1) as nat);
    let b = policy.base_delay_ns as int;
    assert(b * pow2((attempt + 1) as nat) == b * pow2(attempt as nat) * 2) by (nonlinear_arith)
        requires
            pow2((attempt + 1) as nat) == 2 * pow2(attempt as nat),
    ;
    assert(b * pow2(attempt as nat) <= b * pow2(attempt as nat) * 2) by (nonlinear_arith)
        requires
            0 <= b,
    ;
}

} // verus!
