//! Bounded exponential backoff with jitter for the completion poller:
//! after the k-th unanswered poll the wait is `min(64000, 500·2^k)`
//! milliseconds, plus a uniform random jitter below 500 ms on top of
//! the capped value.

use vstd::prelude::*;
use vstd::arithmetic::power2::*;

verus! {

/// How many poll retries are allowed beyond the first check.
pub const MAX_RETRIES: u32 = 20;

/// The cap on the doubling term of the backoff, in milliseconds. The
/// jitter is added on top of the capped value.
pub const MAXIMUM_BACKOFF_MS: u64 = 64000;

/// The first backoff step, in milliseconds.
pub const BASE_BACKOFF_MS: u64 = 500;

/// The exclusive upper bound of the random jitter, in milliseconds.
pub const JITTER_BOUND_MS: u64 = 500;

/// The pre-jitter delay after the k-th unanswered poll (1-indexed):
/// `500·2^k` milliseconds, capped at 64000.
pub open spec fn spec_backoff_delay_ms(k: nat) -> nat {
    if 500 * pow2(k) > 64000 {
        64000
    } else {
        500 * pow2(k)
    }
}

/// The pre-jitter backoff delay after the k-th unanswered poll.
pub fn backoff_delay_ms(k: u32) -> (d: u64)
    ensures
        d == spec_backoff_delay_ms(k as nat),
{
    proof {
        lemma2_to64();
    }
    if k == 0 {
        500
    } else if k == 1 {
        1000
    } else if k == 2 {
        2000
    } else if k == 3 {
        4000
    } else if k == 4 {
        8000
    } else if k == 5 {
        16000
    } else if k == 6 {
        32000
    } else {
        proof {
            if k > 7 {
                lemma_pow2_strictly_increases(7, k as nat);
                assert(500 * pow2(k as nat) > 64000) by (nonlinear_arith)
                    requires
                        pow2(k as nat) > 128,
                ;
            }
        }
        64000
    }
}

/// Relies on `rand::Rng::gen_range` over the half-open range
/// `0..JITTER_BOUND_MS`: the draw lies below the bound.
#[verifier::external_body]
fn draw_jitter_ms() -> (j: u64)
    ensures
        j < JITTER_BOUND_MS,
{
    rand::Rng::gen_range(&mut rand::thread_rng(), 0..JITTER_BOUND_MS)
}

/// The realized delay after the k-th unanswered poll: the capped
/// doubling term plus a fresh random jitter. It reaches at least the
/// pre-jitter delay and stays below it by less than the jitter bound.
pub fn backoff_with_jitter_ms(k: u32) -> (d: u64)
    ensures
        spec_backoff_delay_ms(k as nat) <= d < spec_backoff_delay_ms(k as nat)
            + JITTER_BOUND_MS,
{
    let base = backoff_delay_ms(k);
    let jitter = draw_jitter_ms();
    base + jitter
}

} // verus!
