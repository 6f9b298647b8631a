//! Exponential backoff with jitter between conflicting writes.

use rand::Rng;
use vstd::prelude::*;

verus! {

/// Attempts of one read-mutate-write cycle before a conflict is reported.
pub const MAX_RETRIES: u32 = 15;

/// Delay ceiling of the first retry, in milliseconds.
pub const BASE_BACKOFF_MS: u64 = 10;

/// Largest delay ceiling, in milliseconds.
pub const MAX_BACKOFF_MS: u64 = 1000;

/// Two to the power `e`.
pub open spec fn exp2(e: nat) -> nat
    decreases e,
{
    if e == 0 {
        1
    } else {
        2 * exp2((e - 1) as nat)
    }
}

/// The delay ceiling after conflict number `attempt` (counted from zero):
/// `min(MAX_BACKOFF_MS, BASE_BACKOFF_MS * 2^attempt)`.
pub open spec fn backoff_ceiling(attempt: nat) -> nat {
    let d: nat = (BASE_BACKOFF_MS * exp2(attempt)) as nat;
    if d < MAX_BACKOFF_MS {
        d
    } else {
        MAX_BACKOFF_MS as nat
    }
}

proof fn lemma_exp2_monotone(e: nat, k: nat)
    requires
        e <= k,
    ensures
        1 <= exp2(e) <= exp2(k),
    decreases k,
{
    if k > e {
        lemma_exp2_monotone(e, (k - 1) as nat);
    } else if e > 0 {
        lemma_exp2_monotone((e - 1) as nat, (e - 1) as nat);
    }
}

/// The delay ceiling after conflict number `attempt`.
pub fn backoff_delay_ms(attempt: u32) -> (r: u64)
    ensures
        r == backoff_ceiling(attempt as nat),
{
    let mut d: u64 = BASE_BACKOFF_MS;
    let mut e: u32 = 0;
    while e < attempt && d < MAX_BACKOFF_MS
        invariant
            e <= attempt,
            d == BASE_BACKOFF_MS * exp2(e as nat),
        decreases attempt - e,
    {
        d = d * 2;
        e = e + 1;
    }
    proof {
        lemma_exp2_monotone(e as nat, attempt as nat);
    }
    if d < MAX_BACKOFF_MS {
        d
    } else {
        MAX_BACKOFF_MS
    }
}

/// Relies on rand's `rng().random_range(0..=max)`: a value drawn uniformly
/// from `0..=max`, a range that is never empty.
#[verifier::external_body]
fn random_up_to(max: u64) -> (r: u64)
    ensures
        r <= max,
{
    rand::rng().random_range(0..=max)
}

/// The time to sleep after conflict number `attempt`: drawn uniformly from
/// zero up to the delay ceiling.
pub fn backoff_jitter_ms(attempt: u32) -> (r: u64)
    ensures
        r <= backoff_ceiling(attempt as nat),
{
    let ceiling = backoff_delay_ms(attempt);
    random_up_to(ceiling)
}

} // verus!
