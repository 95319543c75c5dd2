use vstd::prelude::*;

use crate::activation_order::ActivationOrder;
use crate::backoff_strategy::{spec_next_backoff, BackoffStrategy};
use crate::Poolable;

pub mod inner_pool;

verus! {

/// The milliseconds between `earlier` and `later`, and zero when the
/// clock reads `later` before `earlier`.
pub open spec fn spec_elapsed(later: u64, earlier: u64) -> u64 {
    if later >= earlier {
        (later - earlier) as u64
    } else {
        0
    }
}

/// The milliseconds between two clock readings, saturating at zero.
pub fn elapsed_ms(later: u64, earlier: u64) -> (r: u64)
    ensures
        r == spec_elapsed(later, earlier),
{
    if later >= earlier {
        later - earlier
    } else {
        0
    }
}

/// The configuration of one inner pool.
#[derive(Debug, Clone, Copy)]
pub struct Config {
    /// The number of connections the pool strives to keep. At least 1.
    pub desired_pool_size: usize,
    /// How long to wait between failed connection attempts.
    pub backoff_strategy: BackoffStrategy,
    /// When set, the inclusive bound on enqueued checkouts.
    pub reservation_limit: Option<usize>,
    /// The minimum gap between two stats emissions.
    pub stats_interval_ms: u64,
    /// In which order idle connections are drained.
    pub activation_order: ActivationOrder,
}

impl Config {
    /// A pool must strive for at least one connection.
    pub open spec fn wf(self) -> bool {
        self.desired_pool_size >= 1
    }

    /// Replaces the desired pool size.
    pub fn desired_pool_size(self, v: usize) -> (r: Self)
        ensures
            r == (Config { desired_pool_size: v, ..self }),
    {
        Config { desired_pool_size: v, ..self }
    }

    /// Replaces the backoff strategy.
    pub fn backoff_strategy(self, v: BackoffStrategy) -> (r: Self)
        ensures
            r == (Config { backoff_strategy: v, ..self }),
    {
        Config { backoff_strategy: v, ..self }
    }
}

impl Default for Config {
    /// The library's defaults: 20 connections, a constant backoff of
    /// 100 ms, at most 50 reservations, stats every 100 ms, and idle
    /// connections drained newest first.
    fn default() -> (r: Self)
        ensures
            r == (Config {
                desired_pool_size: 20,
                backoff_strategy: BackoffStrategy::Constant { delay_ms: 100 },
                reservation_limit: Some(50usize),
                stats_interval_ms: 100,
                activation_order: ActivationOrder::LiFo,
            }),
    {
        Config {
            desired_pool_size: 20,
            backoff_strategy: BackoffStrategy::Constant { delay_ms: 100 },
            reservation_limit: Some(50),
            stats_interval_ms: 100,
            activation_order: ActivationOrder::LiFo,
        }
    }
}

/// The least and greatest value of a sampled counter over a reporting
/// interval.
#[derive(Debug, Clone, Copy, PartialEq, Eq, Structural)]
pub struct MinMax(pub usize, pub usize);

impl MinMax {
    pub fn min(&self) -> (r: usize)
        ensures
            r == self.0,
    {
        self.0
    }

    pub fn max(&self) -> (r: usize)
        ensures
            r == self.1,
    {
        self.1
    }

    /// The pair that samples a single observation.
    pub fn of(v: usize) -> (r: Self)
        ensures
            r == (MinMax(v, v)),
    {
        MinMax(v, v)
    }

    /// The pair that covers both operands.
    pub fn merge(&self, other: &MinMax) -> (r: Self)
        ensures
            r.0 == (if self.0 <= other.0 {
                self.0
            } else {
                other.0
            }),
            r.1 == (if self.1 >= other.1 {
                self.1
            } else {
                other.1
            }),
    {
        let lo = if self.0 <= other.0 {
            self.0
        } else {
            other.0
        };
        let hi = if self.1 >= other.1 {
            self.1
        } else {
            other.1
        };
        MinMax(lo, hi)
    }
}

impl Default for MinMax {
    fn default() -> (r: Self)
        ensures
            r == (MinMax(0, 0)),
    {
        MinMax(0, 0)
    }
}

/// Simple statistics on the internals of the pool. The values are the
/// minimum and maximum observed during a reporting interval.
#[derive(Debug, Clone, Copy, PartialEq, Eq, Structural)]
pub struct PoolStats {
    /// The number of connections.
    pub pool_size: MinMax,
    /// The number of connections currently checked out.
    pub in_flight: MinMax,
    /// The number of pending reservations for connections.
    pub reservations: MinMax,
    /// The number of idle connections available for immediate checkout.
    pub idle: MinMax,
    /// The number of accessible nodes.
    pub node_count: usize,
}

impl Default for PoolStats {
    fn default() -> (r: Self)
        ensures
            r == (PoolStats {
                pool_size: MinMax(0, 0),
                in_flight: MinMax(0, 0),
                reservations: MinMax(0, 0),
                idle: MinMax(0, 0),
                node_count: 0,
            }),
    {
        PoolStats {
            pool_size: MinMax(0, 0),
            in_flight: MinMax(0, 0),
            reservations: MinMax(0, 0),
            idle: MinMax(0, 0),
            node_count: 0,
        }
    }
}

/// An exact snapshot of one pool's counters.
#[derive(Debug, Clone, Copy, PartialEq, Eq, Structural)]
pub struct PoolState {
    /// The number of connections.
    pub pool_size: usize,
    /// The number of connections currently checked out.
    pub in_flight: usize,
    /// The number of entries in the waiter queue.
    pub reservations: usize,
    /// The number of idle connections.
    pub idle: usize,
    /// The number of creation requests not yet answered by a fresh
    /// connection.
    pub outstanding_creates: usize,
}

/// A live connection wrapped with its lifecycle metadata. Destroying a
/// managed handle is the single point where a connection re-enters the
/// pool: callers route it through `route_return` and hand the resulting
/// parcel to `check_in`.
pub struct Managed<T: Poolable> {
    /// The connection; `None` means defective and must not be reused.
    pub value: Option<T>,
    /// The clock reading at which the factory produced the connection.
    pub created_at: u64,
    /// When the handle was handed to a caller; `None` while idle.
    pub checked_out_at: Option<u64>,
    /// True when the handle must not re-enter the pool; the pool has
    /// already shrunk for it and the connection is only dropped.
    pub marked_for_kill: bool,
}

impl<T: Poolable> Managed<T> {
    /// Wraps a connection the factory just produced.
    pub fn fresh(value: T, now: u64) -> (r: Self)
        ensures
            r == (Managed {
                value: Some(value),
                created_at: now,
                checked_out_at: None::<u64>,
                marked_for_kill: false,
            }),
    {
        Managed { value: Some(value), created_at: now, checked_out_at: None, marked_for_kill: false }
    }
}

/// What a destroyed managed handle folds back into the pool.
pub enum CheckInParcel<T: Poolable> {
    /// A live handle going back after use.
    Alive(Managed<T>),
    /// A handle for a connection the factory just produced.
    Fresh(Managed<T>),
    /// A defective connection was discarded by its caller: how long it
    /// was in flight and how long it lived.
    Dropped { flight_ms: Option<u64>, lifetime_ms: u64 },
}

/// Where a destroyed managed handle goes.
pub enum ReturnRoute<T: Poolable> {
    /// Hand this parcel to the pool's `check_in`.
    CheckIn(CheckInParcel<T>),
    /// The pool already shrank for this handle when it was marked for
    /// kill: only drop the connection and report the lifetime as a
    /// killed connection.
    Discard { lifetime_ms: u64 },
}

/// The decision made when a managed handle is destroyed: a handle
/// marked for kill is only discarded, a handle that still holds its
/// connection goes back alive, and a handle whose connection was taken
/// counts as dropped, with its flight time when it was checked out.
pub fn route_return<T: Poolable>(handle: Managed<T>, now: u64) -> (r: ReturnRoute<T>)
    ensures
        handle.marked_for_kill ==> (r matches ReturnRoute::Discard { lifetime_ms } && lifetime_ms
            == spec_elapsed(now, handle.created_at)),
        !handle.marked_for_kill && handle.value is Some ==> r == ReturnRoute::<T>::CheckIn(
            CheckInParcel::Alive(handle),
        ),
        !handle.marked_for_kill && handle.value is None ==> r == ReturnRoute::<T>::CheckIn(
            CheckInParcel::Dropped {
                flight_ms: match handle.checked_out_at {
                    Some(at) => Some(spec_elapsed(now, at)),
                    None => None,
                },
                lifetime_ms: spec_elapsed(now, handle.created_at),
            },
        ),
{
    if handle.marked_for_kill {
        ReturnRoute::Discard { lifetime_ms: elapsed_ms(now, handle.created_at) }
    } else {
        match handle.value {
            Some(_) => ReturnRoute::CheckIn(CheckInParcel::Alive(handle)),
            None => {
                let flight_ms = match handle.checked_out_at {
                    Some(at) => Some(elapsed_ms(now, at)),
                    None => None,
                };
                ReturnRoute::CheckIn(
                    CheckInParcel::Dropped {
                        flight_ms,
                        lifetime_ms: elapsed_ms(now, handle.created_at),
                    },
                )
            },
        }
    }
}

/// A request sent to the connection-creation stream of one pool.
#[derive(Debug, Clone, Copy, PartialEq, Eq, Structural)]
pub enum NewConnMessage {
    /// Create one new connection.
    RequestNewConn,
    /// Set the shut-down flag; every later message is ignored.
    Shutdown,
}

/// What the connection-creation loop does after one factory attempt.
#[derive(Debug, Clone, Copy, PartialEq, Eq, Structural)]
pub enum CreationStep {
    /// The factory succeeded: wrap the connection fresh and check it
    /// in.
    InsertFresh,
    /// The factory failed: run the attempt numbered `next_attempt`
    /// after the delay, or immediately when the delay is `None`.
    Retry { next_attempt: usize, delay_ms: Option<u64> },
    /// The pool is gone; abandon this creation.
    Abort,
}

/// The decision the creation loop takes after driving the factory
/// once. Failures are recovered locally: the loop retries with the
/// delay the backoff strategy gives for the failed attempt, counted
/// from 1, and never surfaces the failure to checkout callers.
pub fn creation_attempt_step(
    strategy: &BackoffStrategy,
    attempt: usize,
    factory_succeeded: bool,
    pool_alive: bool,
) -> (r: CreationStep)
    requires
        attempt >= 1,
    ensures
        !pool_alive ==> r == CreationStep::Abort,
        pool_alive && factory_succeeded ==> r == CreationStep::InsertFresh,
        pool_alive && !factory_succeeded ==> r == (CreationStep::Retry {
            next_attempt: if attempt < usize::MAX {
                (attempt + 1) as usize
            } else {
                usize::MAX
            },
            delay_ms: spec_next_backoff(*strategy, attempt),
        }),
{
    if !pool_alive {
        CreationStep::Abort
    } else if factory_succeeded {
        CreationStep::InsertFresh
    } else {
        let next_attempt = if attempt < usize::MAX {
            attempt + 1
        } else {
            usize::MAX
        };
        CreationStep::Retry { next_attempt, delay_ms: strategy.get_next_backoff(attempt) }
    }
}

/// What the connection-creation stream does with one message.
#[derive(Debug, Clone, Copy, PartialEq, Eq, Structural)]
pub enum StreamAction {
    /// Start creating one connection.
    StartCreate,
    /// Ignore the message.
    Ignore,
    /// End the stream.
    Stop,
}

/// One step of the long-lived stream that serves creation requests for
/// one pool: the new shut-down flag and the action to carry out. After
/// a shutdown message the flag stays set and every message is ignored;
/// a creation request is served only while the pool is still alive.
pub fn new_conn_stream_step(shut_down: bool, msg: NewConnMessage, pool_alive: bool) -> (r: (
    bool,
    StreamAction,
))
    ensures
        shut_down ==> r == (true, StreamAction::Ignore),
        !shut_down && msg is Shutdown ==> r == (true, StreamAction::Ignore),
        !shut_down && msg is RequestNewConn && pool_alive ==> r == (
            false,
            StreamAction::StartCreate,
        ),
        !shut_down && msg is RequestNewConn && !pool_alive ==> r == (false, StreamAction::Stop),
{
    if shut_down {
        (true, StreamAction::Ignore)
    } else {
        match msg {
            NewConnMessage::RequestNewConn => {
                if pool_alive {
                    (false, StreamAction::StartCreate)
                } else {
                    (false, StreamAction::Stop)
                }
            },
            NewConnMessage::Shutdown => (true, StreamAction::Ignore),
        }
    }
}

} // verus!
