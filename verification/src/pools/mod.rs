use vstd::prelude::*;

use crate::pool::Managed;
use crate::Poolable;

pub mod pool_per_node;
pub mod shared_pool;
pub mod single_pool;

verus! {

/// Where a round-robin dispatch stands: the cursor it started from and
/// the attempt that is waiting. When the wait fails, the dispatch
/// resumes at the following attempt, so that failover walks on to the
/// next sibling.
#[derive(Debug, Clone, Copy, PartialEq, Eq, Structural)]
pub struct DispatchPoint {
    pub cursor: usize,
    pub attempt: usize,
}

/// What a pool facade hands back for a checkout.
pub enum PoolCheckout<T: Poolable> {
    /// A connection from the pool at `pool_index` was available at
    /// once. The handle goes back through a check-in on that pool.
    Ready { pool_index: usize, handle: Managed<T> },
    /// The caller was enqueued on the pool at `pool_index` under
    /// `ticket`. It receives its handle through a later check-in on
    /// that pool; `timeout_ms`, when set, is the deadline to arm. On
    /// its expiry the caller abandons the ticket with `cancel_waiter`
    /// and then, when `retry` names a dispatch point, resumes the
    /// round-robin walk at the attempt after it; with no dispatch
    /// point the checkout fails with a checkout timeout.
    Waiting {
        pool_index: usize,
        ticket: u64,
        timeout_ms: Option<u64>,
        retry: Option<DispatchPoint>,
    },
}

} // verus!
