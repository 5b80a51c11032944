//! Exponential backoff: the wait before a retried attempt.

use vstd::arithmetic::power2::{lemma2_to64, lemma2_to64_rest, lemma_pow2_strictly_increases, lemma_pow2_unfold, pow2};
use vstd::prelude::*;

verus! {

/// The base delay, in seconds: the wait before the first retry.
pub const BASE_DELAY_SECS: u64 = 1;

/// The largest retry count whose delay still fits in a `u64` of seconds.
pub const MAX_BACKOFF_ATTEMPTS: usize = 64;

/// The wait, in seconds, that follows the `attempts`-th retryable failure:
/// the base delay doubled once for every failure before it. A count of zero
/// waits as long as a count of one.
pub open spec fn backoff_secs(attempts: nat) -> nat {
    BASE_DELAY_SECS as nat * pow2(if attempts == 0 { 0 } else { (attempts - 1) as nat })
}

/// The seconds waited in all over the first `retries` retries of one call.
pub open spec fn total_backoff_secs(retries: nat) -> nat
    decreases retries,
{
    if retries == 0 {
        0
    } else {
        total_backoff_secs((retries - 1) as nat) + backoff_secs(retries)
    }
}

/// The delay doubles from one retry to the next.
pub proof fn law_backoff_doubles(attempts: nat)
    requires
        attempts >= 1,
    ensures
        backoff_secs(attempts + 1) == 2 * backoff_secs(attempts),
{
    lemma_pow2_unfold(attempts);
}

/// The waits of `retries` retries add up to one base delay less than the next wait.
pub proof fn lemma_total_backoff(retries: nat)
    ensures
        total_backoff_secs(retries) + 1 == pow2(retries),
    decreases retries,
{
    if retries == 0 {
        lemma2_to64();
    } else {
        lemma_total_backoff((retries - 1) as nat);
        lemma_pow2_unfold(retries);
    }
}

/// A delay fits in a `u64` exactly up to `MAX_BACKOFF_ATTEMPTS`.
pub proof fn lemma_backoff_fits(attempts: nat)
    ensures
        attempts <= MAX_BACKOFF_ATTEMPTS <==> backoff_secs(attempts) <= u64::MAX,
{
    lemma2_to64();
    lemma2_to64_rest();
    if attempts <= MAX_BACKOFF_ATTEMPTS {
        if 1 <= attempts && attempts < MAX_BACKOFF_ATTEMPTS {
            lemma_pow2_strictly_increases((attempts - 1) as nat, 63);
        }
    } else {
        if attempts > MAX_BACKOFF_ATTEMPTS + 1 {
            lemma_pow2_strictly_increases(64, (attempts - 1) as nat);
        }
    }
}

/// The delay after the `attempts`-th retryable failure, in seconds.
pub fn delay_secs(attempts: usize) -> (secs: u64)
    requires
        attempts <= MAX_BACKOFF_ATTEMPTS,
    ensures
        secs == backoff_secs(attempts as nat),
{
    let exponent: usize = attempts.saturating_sub(1);
    let mut secs: u64 = BASE_DELAY_SECS;
    let mut doubled: usize = 0;
    proof {
        lemma2_to64();
    }
    while doubled < exponent
        invariant
            doubled <= exponent <= 63,
            secs == pow2(doubled as nat),
        decreases exponent - doubled,
    {
        proof {
            lemma_pow2_unfold((doubled + 1) as nat);
            lemma2_to64_rest();
            if doubled + 1 < 63 {
                lemma_pow2_strictly_increases((doubled + 1) as nat, 63);
            }
        }
        secs = secs * 2;
        doubled = doubled + 1;
    }
    secs
}

/// The delay after the `attempts`-th retryable failure, in seconds, or `None`
/// where it exceeds what a `u64` holds.
pub fn checked_delay_secs(attempts: usize) -> (secs: Option<u64>)
    ensures
        secs.is_some() <==> backoff_secs(attempts as nat) <= u64::MAX,
        secs matches Some(s) ==> s == backoff_secs(attempts as nat),
{
    proof {
        lemma_backoff_fits(attempts as nat);
    }
    if attempts <= MAX_BACKOFF_ATTEMPTS {
        Some(delay_secs(attempts))
    } else {
        None
    }
}

} // verus!
