use vstd::prelude::*;

verus! {

/// How long the connection-creation loop waits before retrying after a
/// failed connection attempt.
///
/// `get_next_backoff` maps the number of the attempt that just failed,
/// counted from 1, to an optional delay in milliseconds before the next
/// attempt. `None` means "retry immediately".
#[derive(Debug, Clone, Copy, PartialEq, Eq, Structural)]
pub enum BackoffStrategy {
    /// Retry immediately after every failure.
    NoBackoff,
    /// Wait the same delay after every failure.
    Constant { delay_ms: u64 },
    /// Wait `start_ms` after the first failure and `step_ms` longer
    /// after each further failure, saturating at the largest
    /// representable delay.
    Incremental { start_ms: u64, step_ms: u64 },
}

/// The unclamped delay, as an unbounded integer, that an incremental
/// strategy yields for a failed attempt counted from 1.
pub open spec fn spec_incremental_delay(start_ms: u64, step_ms: u64, attempt: usize) -> int {
    start_ms + (attempt - 1) * step_ms
}

/// The delay that `strategy` yields after a failed `attempt`, counted
/// from 1.
pub open spec fn spec_next_backoff(strategy: BackoffStrategy, attempt: usize) -> Option<u64> {
    match strategy {
        BackoffStrategy::NoBackoff => None,
        BackoffStrategy::Constant { delay_ms } => Some(delay_ms),
        BackoffStrategy::Incremental { start_ms, step_ms } => Some(
            if spec_incremental_delay(start_ms, step_ms, attempt) > u64::MAX {
                u64::MAX
            } else {
                spec_incremental_delay(start_ms, step_ms, attempt) as u64
            },
        ),
    }
}

impl BackoffStrategy {
    /// The delay to wait before the retry that follows the given
    /// failed attempt, or `None` to retry immediately.
    pub fn get_next_backoff(&self, attempt: usize) -> (r: Option<u64>)
        requires
            attempt >= 1,
        ensures
            r == spec_next_backoff(*self, attempt),
    {
        match self {
            BackoffStrategy::NoBackoff => None,
            BackoffStrategy::Constant { delay_ms } => Some(*delay_ms),
            BackoffStrategy::Incremental { start_ms, step_ms } => {
                let ghost a: int = attempt - 1;
                let ghost st: int = *step_ms as int;
                proof {
                    assert(a * st <= (u64::MAX as int) * (u64::MAX as int)) by (nonlinear_arith)
                        requires
                            0 <= a <= u64::MAX as int,
                            0 <= st <= u64::MAX as int,
                    ;
                }
                let extra = ((attempt - 1) as u128) * (*step_ms as u128);
                let total = (*start_ms as u128) + extra;
                if total > u64::MAX as u128 {
                    Some(u64::MAX)
                } else {
                    Some(total as u64)
                }
            },
        }
    }
}

/// Delays observed by the connection-creation loop never shrink: over
/// two failed attempts in order, the delay after the later attempt is
/// at least the delay after the earlier one, and a strategy that skips
/// the delay once skips it always.
pub proof fn lemma_backoff_delays_non_decreasing(
    strategy: BackoffStrategy,
    earlier_attempt: usize,
    later_attempt: usize,
)
    requires
        1 <= earlier_attempt <= later_attempt,
    ensures
        match (
            spec_next_backoff(strategy, earlier_attempt),
            spec_next_backoff(strategy, later_attempt),
        ) {
            (Some(d1), Some(d2)) => d1 <= d2,
            (None, None) => true,
            _ => false,
        },
{
    match strategy {
        BackoffStrategy::NoBackoff => {
        },
        BackoffStrategy::Constant { delay_ms } => {
        },
        BackoffStrategy::Incremental { start_ms, step_ms } => {
            vstd::arithmetic::mul::lemma_mul_inequality(
                earlier_attempt - 1,
                later_attempt - 1,
                step_ms as int,
            );
        },
    }
}

} // verus!
