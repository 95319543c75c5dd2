//! A model of a connection pool for one Redis node or a set of
//! read-replica nodes.
//!
//! The pool multiplexes a bounded set of long-lived connections among
//! many callers that each want short exclusive use of one connection.
//! The arbitration core keeps an idle container, a FIFO queue of
//! waiting checkouts, and size counters, and is written as a plain
//! state machine: every operation takes the current time and returns
//! the decision made, so a caller can drive it under a lock and carry
//! out the required sends, timers and connection drops outside of it.
use vstd::prelude::*;

pub mod activation_order;
pub mod backoff_strategy;
pub mod config;
pub mod connection_factory;
pub mod instrumentation;
pub mod error;
pub mod helpers;
pub mod pool;
pub mod pools;

pub use crate::error::{CheckoutError, CheckoutErrorKind};

verus! {

/// A connection that can live in the pool. The pool never inspects a
/// connection beyond the URI it reports being connected to.
pub trait Poolable: Send + Sized + 'static {
    /// The URI this connection is connected to.
    fn connected_to(&self) -> &str;
}

/// The result of one diagnostic round trip against one pool.
#[derive(Debug)]
pub enum PingState {
    /// The node answered in time.
    Healthy,
    /// The node failed to answer; the text tells why.
    Failed(String),
}

/// A diagnostic round trip: its latency, the URI it targeted and how
/// it ended.
#[derive(Debug)]
pub struct Ping {
    pub latency_ms: u64,
    pub uri: Option<String>,
    pub state: PingState,
}

impl Ping {
    pub fn is_ok(&self) -> (r: bool)
        ensures
            r == (self.state is Healthy),
    {
        match self.state {
            PingState::Healthy => true,
            _ => false,
        }
    }

    pub fn is_failed(&self) -> (r: bool)
        ensures
            r == !(self.state is Healthy),
    {
        !self.is_ok()
    }
}

/// The structure behind a pool facade: nothing, one shared pool, or
/// one pool per node.
pub enum RedisPoolFlavour<T: Poolable> {
    Empty,
    Shared(crate::pools::shared_pool::SharedPool<T>),
    PerNode(crate::pools::pool_per_node::PoolPerNode<T>),
}

/// A pool to one or more Redis instances.
pub struct RedisPool<T: Poolable> {
    flavour: RedisPoolFlavour<T>,
}

impl<T: Poolable> RedisPool<T> {
    /// The structure behind the facade.
    pub closed spec fn spec_flavour(&self) -> RedisPoolFlavour<T> {
        self.flavour
    }

    pub open spec fn wf(&self) -> bool {
        match self.spec_flavour() {
            RedisPoolFlavour::Empty => true,
            RedisPoolFlavour::Shared(p) => p.wf(),
            RedisPoolFlavour::PerNode(p) => p.wf(),
        }
    }

    /// Every pool behind the facade can still enqueue a checkout.
    pub open spec fn spec_can_enqueue(&self) -> bool {
        match self.spec_flavour() {
            RedisPoolFlavour::Empty => true,
            RedisPoolFlavour::Shared(p) => p.spec_pool().spec_can_enqueue(),
            RedisPoolFlavour::PerNode(p) => p.spec_inner().spec_can_enqueue(),
        }
    }

    /// The text of every URI the facade connects to.
    pub open spec fn spec_connected_views(&self) -> Seq<Seq<char>> {
        match self.spec_flavour() {
            RedisPoolFlavour::Empty => Seq::<Seq<char>>::empty(),
            RedisPoolFlavour::Shared(p) => crate::helpers::string_views(p.spec_connected_to()),
            RedisPoolFlavour::PerNode(p) => crate::helpers::string_views(
                p.spec_inner().spec_connected_to(),
            ),
        }
    }

    /// A builder that starts from the default configuration.
    pub fn builder() -> (r: crate::config::Builder)
        ensures
            crate::config::spec_default_config(r.spec_config()),
    {
        crate::config::Builder::default()
    }

    /// A facade with nothing behind it; every checkout fails with
    /// `NoPool`.
    pub fn no_pool() -> (r: Self)
        ensures
            r.spec_flavour() is Empty,
    {
        RedisPool { flavour: RedisPoolFlavour::Empty }
    }

    /// A facade over one shared pool.
    pub fn shared(pool: crate::pools::shared_pool::SharedPool<T>) -> (r: Self)
        ensures
            r.spec_flavour() == RedisPoolFlavour::Shared(pool),
    {
        RedisPool { flavour: RedisPoolFlavour::Shared(pool) }
    }

    /// A facade over one pool per node.
    pub fn per_node(pool: crate::pools::pool_per_node::PoolPerNode<T>) -> (r: Self)
        ensures
            r.spec_flavour() == RedisPoolFlavour::PerNode(pool),
    {
        RedisPool { flavour: RedisPoolFlavour::PerNode(pool) }
    }

    /// Checks a connection out and, if the request has to be enqueued,
    /// hands out the deadline the pool was configured with.
    pub fn check_out(&mut self, now: u64) -> (r: Result<
        crate::pools::PoolCheckout<T>,
        CheckoutError,
    >)
        requires
            old(self).wf(),
            old(self).spec_can_enqueue(),
        ensures
            final(self).wf(),
            facade_check_out_post(*old(self), *final(self), now, r, None::<Option<u64>>),
    {
        match &mut self.flavour {
            RedisPoolFlavour::Shared(pool) => pool.check_out(now),
            RedisPoolFlavour::PerNode(pool) => pool.check_out(now),
            RedisPoolFlavour::Empty => Err(CheckoutError::new(CheckoutErrorKind::NoPool)),
        }
    }

    /// Checks a connection out and, if the request has to be enqueued,
    /// hands out the given deadline; `None` waits indefinitely.
    pub fn check_out_explicit_timeout(&mut self, timeout_ms: Option<u64>, now: u64) -> (r: Result<
        crate::pools::PoolCheckout<T>,
        CheckoutError,
    >)
        requires
            old(self).wf(),
            old(self).spec_can_enqueue(),
        ensures
            final(self).wf(),
            facade_check_out_post(*old(self), *final(self), now, r, Some(timeout_ms)),
    {
        match &mut self.flavour {
            RedisPoolFlavour::Shared(pool) => pool.check_out_explicit_timeout(timeout_ms, now),
            RedisPoolFlavour::PerNode(pool) => pool.check_out_explicit_timeout(timeout_ms, now),
            RedisPoolFlavour::Empty => Err(CheckoutError::new(CheckoutErrorKind::NoPool)),
        }
    }

    /// Resumes the round-robin walk of one pool-per-node dispatch
    /// after the wait at its current attempt failed: the caller
    /// abandons its ticket, then tries the siblings from
    /// `start_attempt` on, failing over to the next healthy one.
    pub fn resume_check_out(
        &mut self,
        cursor: usize,
        start_attempt: usize,
        timeout_ms: Option<u64>,
        now: u64,
    ) -> (r: Result<crate::pools::PoolCheckout<T>, CheckoutError>)
        requires
            old(self).wf(),
            old(self).spec_can_enqueue(),
            old(self).spec_flavour() matches RedisPoolFlavour::PerNode(p) && cursor
                < p.spec_inner().spec_pools().len(),
        ensures
            final(self).wf(),
            (match (old(self).spec_flavour(), final(self).spec_flavour()) {
                (RedisPoolFlavour::PerNode(po), RedisPoolFlavour::PerNode(pf)) => {
                    &&& pf.spec_checkout_timeout() == po.spec_checkout_timeout()
                    &&& pf.spec_inner().spec_count() == po.spec_inner().spec_count()
                    &&& crate::pools::pool_per_node::multi_dispatch_post(
                        po.spec_inner(),
                        pf.spec_inner(),
                        now,
                        r,
                        timeout_ms,
                        cursor as int,
                        start_attempt as int,
                    )
                },
                _ => false,
            }),
    {
        match &mut self.flavour {
            RedisPoolFlavour::PerNode(pool) => pool.resume_check_out(
                cursor,
                start_attempt,
                timeout_ms,
                now,
            ),
            _ => {
                proof {
                    assert(false);
                }
                unreached()
            },
        }
    }

    /// Folds a returned, fresh or dropped connection back into the
    /// pool it came from: the one at `pool_index`, as the checkout
    /// reply named it.
    pub fn check_in(
        &mut self,
        pool_index: usize,
        parcel: crate::pool::CheckInParcel<T>,
        now: u64,
    ) -> (r: crate::pool::inner_pool::CheckInOutcome<T>)
        requires
            old(self).wf(),
            !(old(self).spec_flavour() is Empty),
            facade_pool_at(*old(self), pool_index as int) matches Some(p) && check_in_pre(
                p,
                parcel,
            ),
        ensures
            final(self).wf(),
            facade_same_shape(*old(self), *final(self)),
            (match (
                facade_pool_at(*old(self), pool_index as int),
                facade_pool_at(*final(self), pool_index as int),
            ) {
                (Some(po), Some(pf)) => crate::pool::inner_pool::check_in_post(
                    po,
                    pf,
                    parcel,
                    now,
                    r,
                ),
                _ => false,
            }),
    {
        match &mut self.flavour {
            RedisPoolFlavour::Shared(pool) => pool.check_in(parcel, now),
            RedisPoolFlavour::PerNode(pool) => pool.check_in(pool_index, parcel, now),
            RedisPoolFlavour::Empty => {
                proof {
                    assert(false);
                }
                unreached()
            },
        }
    }

    /// Abandons the reservation that holds `ticket` on the pool at
    /// `pool_index`, reporting for how long it had been waiting.
    pub fn cancel_waiter(&mut self, pool_index: usize, ticket: u64) -> (r: Option<u64>)
        requires
            old(self).wf(),
            !(old(self).spec_flavour() is Empty),
            facade_pool_at(*old(self), pool_index as int) is Some,
        ensures
            final(self).wf(),
            facade_same_shape(*old(self), *final(self)),
            (match (
                facade_pool_at(*old(self), pool_index as int),
                facade_pool_at(*final(self), pool_index as int),
            ) {
                (Some(po), Some(pf)) => crate::pool::inner_pool::cancel_post(po, pf, ticket, r),
                _ => false,
            }),
    {
        match &mut self.flavour {
            RedisPoolFlavour::Shared(pool) => pool.cancel_waiter(ticket),
            RedisPoolFlavour::PerNode(pool) => pool.cancel_waiter(pool_index, ticket),
            RedisPoolFlavour::Empty => {
                proof {
                    assert(false);
                }
                unreached()
            },
        }
    }

    /// Shrinks the pool at `pool_index` by one connection: an idle
    /// connection is killed at once and returned, marked, for the
    /// caller to drop; with every connection in flight a sentinel
    /// waits for the next returned one instead.
    pub fn remove_conn(&mut self, pool_index: usize) -> (r: Option<crate::pool::Managed<T>>)
        requires
            old(self).wf(),
            !(old(self).spec_flavour() is Empty),
            facade_pool_at(*old(self), pool_index as int) is Some,
        ensures
            final(self).wf(),
            facade_same_shape(*old(self), *final(self)),
            (match (
                facade_pool_at(*old(self), pool_index as int),
                facade_pool_at(*final(self), pool_index as int),
            ) {
                (Some(po), Some(pf)) => crate::pool::inner_pool::remove_conn_post(po, pf, r),
                _ => false,
            }),
    {
        match &mut self.flavour {
            RedisPoolFlavour::Shared(pool) => pool.remove_conn(),
            RedisPoolFlavour::PerNode(pool) => pool.remove_conn(pool_index),
            RedisPoolFlavour::Empty => {
                proof {
                    assert(false);
                }
                unreached()
            },
        }
    }

    /// The exact counters of the pool at `pool_index`.
    pub fn pool_state(&self, pool_index: usize) -> (r: crate::pool::PoolState)
        requires
            !(self.spec_flavour() is Empty),
            facade_pool_at(*self, pool_index as int) is Some,
        ensures
            (match facade_pool_at(*self, pool_index as int) {
                Some(p) => {
                    &&& r.pool_size == p.spec_pool_size()
                    &&& r.in_flight == p.spec_in_flight()
                    &&& r.reservations == p.spec_reservations()
                    &&& r.idle == p.spec_idle().len()
                    &&& r.outstanding_creates == p.spec_outstanding_creates()
                },
                None => false,
            }),
    {
        match &self.flavour {
            RedisPoolFlavour::Shared(pool) => pool.state(),
            RedisPoolFlavour::PerNode(pool) => pool.pool_state(pool_index),
            RedisPoolFlavour::Empty => {
                proof {
                    assert(false);
                }
                unreached()
            },
        }
    }

    /// Sampled statistics: with one pool each counter is a one-point
    /// interval; with several pools each counter spans the least and
    /// greatest value over the siblings; an empty facade reports
    /// zeroes.
    pub fn stats(&self) -> (r: crate::pool::PoolStats)
        requires
            self.wf(),
        ensures
            match self.spec_flavour() {
                RedisPoolFlavour::Empty => r == (crate::pool::PoolStats {
                    pool_size: crate::pool::MinMax(0, 0),
                    in_flight: crate::pool::MinMax(0, 0),
                    reservations: crate::pool::MinMax(0, 0),
                    idle: crate::pool::MinMax(0, 0),
                    node_count: 0,
                }),
                RedisPoolFlavour::Shared(p) => {
                    &&& r.pool_size.0 == p.spec_pool().spec_pool_size() && r.pool_size.1
                        == p.spec_pool().spec_pool_size()
                    &&& r.in_flight.0 == p.spec_pool().spec_in_flight() && r.in_flight.1
                        == p.spec_pool().spec_in_flight()
                    &&& r.reservations.0 == p.spec_pool().spec_reservations() && r.reservations.1
                        == p.spec_pool().spec_reservations()
                    &&& r.idle.0 == p.spec_pool().spec_idle().len() && r.idle.1 == p.spec_pool(
                    ).spec_idle().len()
                    &&& r.node_count == 1
                },
                RedisPoolFlavour::PerNode(p) => {
                    &&& r.node_count == p.spec_inner().spec_pools().len()
                    &&& forall|j: int|
                        0 <= j < p.spec_inner().spec_pools().len() ==> {
                            &&& r.pool_size.0 <= (
                            #[trigger] p.spec_inner().spec_pools()[j]).spec_pool_size()
                                <= r.pool_size.1
                            &&& r.in_flight.0 <= p.spec_inner().spec_pools()[j].spec_in_flight()
                                <= r.in_flight.1
                            &&& r.reservations.0
                                <= p.spec_inner().spec_pools()[j].spec_reservations()
                                <= r.reservations.1
                            &&& r.idle.0 <= p.spec_inner().spec_pools()[j].spec_idle().len()
                                <= r.idle.1
                        }
                    &&& (p.spec_inner().spec_pools().len() > 0 ==> {
                        &&& exists|j: int|
                            0 <= j < p.spec_inner().spec_pools().len() && r.pool_size.0 == (
                            #[trigger] p.spec_inner().spec_pools()[j]).spec_pool_size()
                        &&& exists|j: int|
                            0 <= j < p.spec_inner().spec_pools().len() && r.pool_size.1 == (
                            #[trigger] p.spec_inner().spec_pools()[j]).spec_pool_size()
                        &&& exists|j: int|
                            0 <= j < p.spec_inner().spec_pools().len() && r.in_flight.0 == (
                            #[trigger] p.spec_inner().spec_pools()[j]).spec_in_flight()
                        &&& exists|j: int|
                            0 <= j < p.spec_inner().spec_pools().len() && r.in_flight.1 == (
                            #[trigger] p.spec_inner().spec_pools()[j]).spec_in_flight()
                        &&& exists|j: int|
                            0 <= j < p.spec_inner().spec_pools().len() && r.reservations.0 == (
                            #[trigger] p.spec_inner().spec_pools()[j]).spec_reservations()
                        &&& exists|j: int|
                            0 <= j < p.spec_inner().spec_pools().len() && r.reservations.1 == (
                            #[trigger] p.spec_inner().spec_pools()[j]).spec_reservations()
                        &&& exists|j: int|
                            0 <= j < p.spec_inner().spec_pools().len() && r.idle.0 == (
                            #[trigger] p.spec_inner().spec_pools()[j]).spec_idle().len()
                        &&& exists|j: int|
                            0 <= j < p.spec_inner().spec_pools().len() && r.idle.1 == (
                            #[trigger] p.spec_inner().spec_pools()[j]).spec_idle().len()
                    })
                },
            },
    {
        match &self.flavour {
            RedisPoolFlavour::Shared(pool) => pool.stats(),
            RedisPoolFlavour::PerNode(pool) => pool.stats(),
            RedisPoolFlavour::Empty => crate::pool::PoolStats {
                pool_size: crate::pool::MinMax(0, 0),
                in_flight: crate::pool::MinMax(0, 0),
                reservations: crate::pool::MinMax(0, 0),
                idle: crate::pool::MinMax(0, 0),
                node_count: 0,
            },
        }
    }

    /// Whether every pool behind the facade can still enqueue a
    /// checkout; callers test this before a checkout.
    pub fn can_enqueue(&self) -> (r: bool)
        ensures
            r == self.spec_can_enqueue(),
    {
        match &self.flavour {
            RedisPoolFlavour::Empty => true,
            RedisPoolFlavour::Shared(pool) => pool.can_enqueue(),
            RedisPoolFlavour::PerNode(pool) => pool.can_enqueue(),
        }
    }

    /// Draws one creation request for the pool at `pool_index`, to be
    /// sent to that pool's creation stream. Requests are only drawn
    /// while the pool, counting answers still under way, is below its
    /// desired size.
    pub fn request_new_conn(&mut self, pool_index: usize) -> (msg: crate::pool::NewConnMessage)
        requires
            old(self).wf(),
            !(old(self).spec_flavour() is Empty),
            facade_pool_at(*old(self), pool_index as int) matches Some(p) && p.spec_pool_size()
                + p.spec_outstanding_creates() < p.spec_config().desired_pool_size,
        ensures
            final(self).wf(),
            facade_same_shape(*old(self), *final(self)),
            msg == crate::pool::NewConnMessage::RequestNewConn,
            (match (
                facade_pool_at(*old(self), pool_index as int),
                facade_pool_at(*final(self), pool_index as int),
            ) {
                (Some(po), Some(pf)) => {
                    &&& pf.spec_outstanding_creates() == po.spec_outstanding_creates() + 1
                    &&& pf.spec_idle() == po.spec_idle()
                    &&& pf.spec_waiting() == po.spec_waiting()
                    &&& pf.spec_pool_size() == po.spec_pool_size()
                    &&& pf.spec_in_flight() == po.spec_in_flight()
                    &&& pf.spec_config() == po.spec_config()
                },
                _ => false,
            }),
    {
        match &mut self.flavour {
            RedisPoolFlavour::Shared(pool) => pool.request_new_conn(),
            RedisPoolFlavour::PerNode(pool) => pool.request_new_conn(pool_index),
            RedisPoolFlavour::Empty => {
                proof {
                    assert(false);
                }
                unreached()
            },
        }
    }

    /// The URIs this pool is connected to.
    pub fn connected_to(&self) -> (r: Vec<String>)
        ensures
            crate::helpers::string_views(r@) == self.spec_connected_views(),
    {
        match &self.flavour {
            RedisPoolFlavour::Shared(pool) => crate::helpers::clone_string_vec(
                pool.connected_to(),
            ),
            RedisPoolFlavour::PerNode(pool) => crate::helpers::clone_string_vec(
                pool.connected_to(),
            ),
            RedisPoolFlavour::Empty => {
                let r: Vec<String> = Vec::new();
                proof {
                    assert(crate::helpers::string_views(r@) =~= Seq::<Seq<char>>::empty());
                }
                r
            },
        }
    }
}

/// The arbitration core a facade-level pool index names: the shared
/// pool itself at index 0, or the sibling at that index.
pub open spec fn facade_pool_at<T: Poolable>(p: RedisPool<T>, pool_index: int) -> Option<
    crate::pool::inner_pool::InnerPool<T>,
> {
    match p.spec_flavour() {
        RedisPoolFlavour::Empty => None,
        RedisPoolFlavour::Shared(sp) => if pool_index == 0 {
            Some(sp.spec_pool())
        } else {
            None
        },
        RedisPoolFlavour::PerNode(pp) => if 0 <= pool_index
            < pp.spec_inner().spec_pools().len() {
            Some(pp.spec_inner().spec_pools()[pool_index])
        } else {
            None
        },
    }
}

/// What `check_in` asks of the pool a parcel goes back to.
pub open spec fn check_in_pre<T: Poolable>(
    p: crate::pool::inner_pool::InnerPool<T>,
    parcel: crate::pool::CheckInParcel<T>,
) -> bool {
    &&& (parcel matches crate::pool::CheckInParcel::Alive(m) ==> m.value is Some
        && m.checked_out_at is Some && !m.marked_for_kill && p.spec_in_flight() >= 1)
    &&& (parcel matches crate::pool::CheckInParcel::Fresh(m) ==> m.value is Some
        && m.checked_out_at is None && !m.marked_for_kill && p.spec_outstanding_creates() >= 1)
    &&& (parcel matches crate::pool::CheckInParcel::Dropped { flight_ms, .. } ==> flight_ms is Some
        && p.spec_in_flight() >= 1 && p.spec_pool_size() >= 1)
}

/// The facade keeps its shape: the flavour variant, the deadline, the
/// URIs, and, per node, the pool count and the cursorless parts.
pub open spec fn facade_same_shape<T: Poolable>(o: RedisPool<T>, f: RedisPool<T>) -> bool {
    match (o.spec_flavour(), f.spec_flavour()) {
        (RedisPoolFlavour::Empty, RedisPoolFlavour::Empty) => true,
        (RedisPoolFlavour::Shared(po), RedisPoolFlavour::Shared(pf)) => {
            &&& pf.spec_checkout_timeout() == po.spec_checkout_timeout()
            &&& pf.spec_connected_to() == po.spec_connected_to()
        },
        (RedisPoolFlavour::PerNode(po), RedisPoolFlavour::PerNode(pf)) => {
            &&& pf.spec_checkout_timeout() == po.spec_checkout_timeout()
            &&& pf.spec_inner().spec_connected_to() == po.spec_inner().spec_connected_to()
            &&& pf.spec_inner().spec_pools().len() == po.spec_inner().spec_pools().len()
        },
        _ => false,
    }
}

/// What one facade checkout must look like. `explicit` is the given
/// deadline, or `None` for the pool's own. An empty facade fails with
/// `NoPool`; the others answer as their pool does.
pub open spec fn facade_check_out_post<T: Poolable>(
    o: RedisPool<T>,
    f: RedisPool<T>,
    now: u64,
    r: Result<crate::pools::PoolCheckout<T>, CheckoutError>,
    explicit: Option<Option<u64>>,
) -> bool {
    match (o.spec_flavour(), f.spec_flavour()) {
        (RedisPoolFlavour::Empty, RedisPoolFlavour::Empty) => r matches Err(e) && e.spec_kind()
            == CheckoutErrorKind::NoPool,
        (RedisPoolFlavour::Shared(po), RedisPoolFlavour::Shared(pf)) => {
            crate::pools::shared_pool::shared_check_out_post(
                po,
                pf,
                now,
                r,
                match explicit {
                    Some(t) => t,
                    None => po.spec_checkout_timeout(),
                },
            )
        },
        (RedisPoolFlavour::PerNode(po), RedisPoolFlavour::PerNode(pf)) => {
            crate::pools::pool_per_node::multi_check_out_post(
                po.spec_inner(),
                pf.spec_inner(),
                now,
                r,
                match explicit {
                    Some(t) => t,
                    None => po.spec_checkout_timeout(),
                },
            )
        },
        _ => false,
    }
}

} // verus!
