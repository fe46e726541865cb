//! Reconnection backoff.
use std::time::Duration;
use vstd::prelude::*;

verus! {

/// What `Duration::from_millis` returns for a count of milliseconds.
pub uninterp spec fn duration_from_millis(ms: u64) -> Duration;

/// Calls `std::time::Duration::from_millis`; the contract names its result, which
/// depends on the argument alone.
#[verifier::external_body]
fn millis(ms: u64) -> (d: Duration)
    ensures
        d == duration_from_millis(ms),
{
    Duration::from_millis(ms)
}

/// `2^n` for the small exponents the backoff uses.
pub open spec fn pow2(n: nat) -> nat
    decreases n,
{
    if n == 0 {
        1
    } else {
        2 * pow2((n - 1) as nat)
    }
}

/// Delay in milliseconds after `failures` consecutive failures with the given jitter.
pub open spec fn retry_delay_ms(failures: nat, jitter_ms: u64) -> nat {
    250 * pow2(failures) + (if jitter_ms < 249 { jitter_ms as nat } else { 249 })
}

/// The failure count after one more failure: one more, saturating at four.
pub open spec fn after_failure(failures: nat) -> nat {
    if failures + 1 < 4 {
        failures + 1
    } else {
        4
    }
}

/// Exponential retry state for the data-plane reconnect; the failure count saturates at four.
pub struct Retry {
    failures: u32,
}

impl View for Retry {
    type V = nat;

    closed spec fn view(&self) -> nat {
        self.failures as nat
    }
}

impl Retry {
    /// The failure count never exceeds four.
    pub closed spec fn wf(self) -> bool {
        self.failures <= 4
    }

    /// A successful connection restores the fastest retry.
    pub fn connected(&mut self)
        ensures
            final(self)@ == 0,
            final(self).wf(),
    {
        self.failures = 0;
    }

    /// Counts one more failure and returns the delay before the next attempt:
    /// `250 ms * 2^failures` plus the jitter, which is capped at 249 ms.
    pub fn next_delay(&mut self, jitter_ms: u64) -> (d: Duration)
        requires
            old(self).wf(),
        ensures
            final(self).wf(),
            final(self)@ == after_failure(old(self)@),
            d == duration_from_millis(retry_delay_ms(final(self)@, jitter_ms) as u64),
            500 <= retry_delay_ms(final(self)@, jitter_ms) < 5000,
    {
        self.failures = if self.failures + 1 < 4 { self.failures + 1 } else { 4 };
        let shift: u64 = if self.failures == 1 {
            2
        } else if self.failures == 2 {
            4
        } else if self.failures == 3 {
            8
        } else {
            16
        };
        let jitter: u64 = if jitter_ms < 249 { jitter_ms } else { 249 };
        proof {
            reveal_with_fuel(pow2, 5);
        }
        millis(250 * shift + jitter)
    }
}

impl Default for Retry {
    fn default() -> (r: Self)
        ensures
            r@ == 0,
            r.wf(),
    {
        Retry { failures: 0 }
    }
}

/// Whatever the state, a success followed by a failure waits less than one second.
pub proof fn law_success_restores_fast_retry(jitter_ms: u64)
    ensures
        retry_delay_ms(after_failure(0), jitter_ms) < 1000,
{
    reveal_with_fuel(pow2, 2);
}

/// However long an outage lasts, the failure count stays at most four and every retry
/// waits at least 500 ms and less than 5 s.
pub proof fn law_retry_delay_bounded(failures: nat, jitter_ms: u64)
    requires
        failures <= 4,
    ensures
        after_failure(failures) <= 4,
        500 <= retry_delay_ms(after_failure(failures), jitter_ms) < 5000,
{
    reveal_with_fuel(pow2, 5);
}

/// Control-connection backoff: the attempt counter saturates at six and the delay is
/// `2^attempt` seconds plus the random value reduced below one second.
pub open spec fn control_delay_ms(attempt: nat, random: u32) -> nat {
    pow2(attempt) * 1000 + (random % 1000) as nat
}

/// Advances the control-connection attempt counter and returns it with the delay in ms.
pub fn control_backoff(attempt: u32, random: u32) -> (r: (u32, u64))
    requires
        attempt < u32::MAX,
    ensures
        r.0 == if attempt + 1 < 6 { attempt + 1 } else { 6 },
        r.1 == control_delay_ms(r.0 as nat, random),
{
    let next: u32 = if attempt + 1 < 6 { attempt + 1 } else { 6 };
    let factor: u64 = if next == 1 {
        2
    } else if next == 2 {
        4
    } else if next == 3 {
        8
    } else if next == 4 {
        16
    } else if next == 5 {
        32
    } else {
        64
    };
    proof {
        reveal_with_fuel(pow2, 7);
    }
    (next, factor * 1000 + (random % 1000) as u64)
}

} // verus!
