//! The retrying transport's decisions: which outcomes are transient,
//! and how long to wait before trying again.
//!
//! A server-side error status or a connection-level failure is
//! transient and worth retrying; anything else is permanent. Waits
//! grow exponentially from one second, capped at thirty minutes.

use vstd::prelude::*;

verus! {

/// Server-side error statuses are the transient responses.
pub open spec fn transient_status(status: u16) -> bool {
    500 <= status <= 599
}

/// Whether a response status is transient (worth retrying).
pub fn is_transient_status(status: u16) -> (r: bool)
    ensures
        r == transient_status(status),
{
    500 <= status && status <= 599
}

/// A success status, the 2xx class.
pub open spec fn success_status(status: u16) -> bool {
    200 <= status <= 299
}

/// Whether a response status reports success.
pub fn is_success_status(status: u16) -> (r: bool)
    ensures
        r == success_status(status),
{
    200 <= status && status <= 299
}

/// The wait before retry number `attempt + 1`, in milliseconds: one
/// second after the first failure, doubling with each further one,
/// capped at thirty minutes.
pub open spec fn backoff_delay_spec(attempt: nat) -> int
    decreases attempt,
{
    if attempt == 0 {
        1000
    } else if attempt > 10 {
        1_800_000
    } else {
        2 * backoff_delay_spec((attempt - 1) as nat)
    }
}

/// Computes the backoff wait for the given number of failures so far.
pub fn backoff_delay_ms(attempt: u32) -> (r: u64)
    ensures
        r == backoff_delay_spec(attempt as nat),
{
    let r: u64 = match attempt {
        0 => 1_000,
        1 => 2_000,
        2 => 4_000,
        3 => 8_000,
        4 => 16_000,
        5 => 32_000,
        6 => 64_000,
        7 => 128_000,
        8 => 256_000,
        9 => 512_000,
        10 => 1_024_000,
        _ => 1_800_000,
    };
    proof {
        reveal_with_fuel(backoff_delay_spec, 12);
    }
    r
}

/// On the doubling stretch of the schedule, the wait is exactly a
/// second scaled by a power of two.
proof fn lemma_backoff_is_pow2(attempt: nat)
    requires
        attempt <= 10,
    ensures
        backoff_delay_spec(attempt) == 1000 * vstd::arithmetic::power2::pow2(attempt),
    decreases attempt,
{
    if attempt == 0 {
        assert(vstd::arithmetic::power2::pow2(0) == 1) by {
            vstd::arithmetic::power2::lemma2_to64();
        }
    } else {
        vstd::arithmetic::power2::lemma_pow2_unfold(attempt);
        lemma_backoff_is_pow2((attempt - 1) as nat);
    }
}

/// Law: the backoff schedule never waits less than a second nor
/// longer than its thirty-minute ceiling, however many failures came
/// before.
pub proof fn lemma_backoff_bounded(attempt: nat)
    ensures
        1000 <= backoff_delay_spec(attempt) <= 1_800_000,
{
    if attempt <= 10 {
        lemma_backoff_is_pow2(attempt);
        vstd::arithmetic::power2::lemma2_to64();
        if attempt < 10 {
            vstd::arithmetic::power2::lemma_pow2_strictly_increases(attempt, 10);
        }
        vstd::arithmetic::power2::lemma_pow2_pos(attempt);
    }
}

} // verus!
