//! Exponential backoff for retried forwarding attempts: the delay doubles
//! with each consecutive failure and is capped by a configured maximum.

use vstd::prelude::*;

verus! {

/// The delay, in milliseconds, to wait before retry number `attempt`
/// (attempt 0 is the first retry). The delay starts at `initial` and doubles
/// each attempt, never exceeding `maximum`.
pub open spec fn spec_backoff(initial: u64, maximum: u64, attempt: nat) -> u64
    decreases attempt,
{
    if attempt == 0 {
        if initial <= maximum {
            initial
        } else {
            maximum
        }
    } else {
        let prev = spec_backoff(initial, maximum, (attempt - 1) as nat);
        if prev > maximum / 2 {
            maximum
        } else {
            (prev * 2) as u64
        }
    }
}

/// Every backoff delay is bounded above by the configured maximum.
pub proof fn lemma_backoff_bounded(initial: u64, maximum: u64, attempt: nat)
    ensures
        spec_backoff(initial, maximum, attempt) <= maximum,
    decreases attempt,
{
    if attempt > 0 {
        lemma_backoff_bounded(initial, maximum, (attempt - 1) as nat);
    }
}

/// The backoff delay is monotonically non-decreasing from one attempt to the
/// next, for every attempt count.
pub proof fn lemma_backoff_monotonic_step(initial: u64, maximum: u64, attempt: nat)
    ensures
        spec_backoff(initial, maximum, attempt) <= spec_backoff(initial, maximum, attempt + 1),
{
    lemma_backoff_bounded(initial, maximum, attempt);
}

/// Monotonicity over any two attempt counts: a later attempt never waits
/// less than an earlier one.
pub proof fn lemma_backoff_monotonic(initial: u64, maximum: u64, j: nat, k: nat)
    requires
        j <= k,
    ensures
        spec_backoff(initial, maximum, j) <= spec_backoff(initial, maximum, k),
    decreases k - j,
{
    if j < k {
        lemma_backoff_monotonic(initial, maximum, j, (k - 1) as nat);
        lemma_backoff_monotonic_step(initial, maximum, (k - 1) as nat);
    }
}

/// Computes the backoff delay before retry number `attempt`.
pub fn backoff_delay(initial: u64, maximum: u64, attempt: u32) -> (delay: u64)
    ensures
        delay == spec_backoff(initial, maximum, attempt as nat),
        delay <= maximum,
{
    let mut delay: u64 = if initial <= maximum {
        initial
    } else {
        maximum
    };
    let mut i: u32 = 0;
    while i < attempt
        invariant
            i <= attempt,
            delay == spec_backoff(initial, maximum, i as nat),
            delay <= maximum,
        decreases attempt - i,
    {
        if delay > maximum / 2 {
            delay = maximum;
        } else {
            delay = delay * 2;
        }
        i = i + 1;
    }
    delay
}

} // verus!
