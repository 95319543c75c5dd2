use vstd::prelude::*;

use crate::error::{CheckoutError, InitializationResult};
use crate::pool::inner_pool::{
    cancel_post, check_in_post, check_out_post, remove_conn_post, CheckInOutcome, CheckOutReply,
    InnerPool,
};
use crate::pool::{
    spec_elapsed, CheckInParcel, Config as PoolConfig, Managed, NewConnMessage, PoolState,
    PoolStats,
};
use crate::pools::PoolCheckout;
use crate::Poolable;

verus! {

/// The pool configuration a client configuration induces for each of
/// its pools.
pub open spec fn spec_pool_config(c: crate::config::Config) -> PoolConfig {
    PoolConfig {
        desired_pool_size: c.desired_pool_size,
        backoff_strategy: c.backoff_strategy,
        reservation_limit: c.reservation_limit,
        stats_interval_ms: c.stats_interval_ms,
        activation_order: c.activation_order,
    }
}

/// One pool whose connections are spread over all configured nodes.
/// The checkout deadline configured for the client is handed out with
/// every enqueued checkout.
pub struct SharedPool<T: Poolable> {
    pool: InnerPool<T>,
    checkout_timeout_ms: Option<u64>,
    connected_to: Vec<String>,
    last_stats_at: u64,
}

impl<T: Poolable> SharedPool<T> {
    /// The arbitration core.
    pub closed spec fn spec_pool(&self) -> InnerPool<T> {
        self.pool
    }

    /// The default deadline for enqueued checkouts.
    pub closed spec fn spec_checkout_timeout(&self) -> Option<u64> {
        self.checkout_timeout_ms
    }

    /// The URIs this pool connects to.
    pub closed spec fn spec_connected_to(&self) -> Seq<String> {
        self.connected_to@
    }

    /// When stats were last handed out.
    pub closed spec fn spec_last_stats_at(&self) -> u64 {
        self.last_stats_at
    }

    pub open spec fn wf(&self) -> bool {
        self.spec_pool().wf()
    }

    /// Sets the pool up from a client configuration. Initialization is
    /// refused for a zero pool size and for an empty node list.
    pub fn new(config: crate::config::Config) -> (r: InitializationResult<SharedPool<T>>)
        ensures
            match r {
                Ok(p) => {
                    &&& config.desired_pool_size >= 1
                    &&& config.connect_to_nodes.len() >= 1
                    &&& p.wf()
                    &&& p.spec_pool().spec_config() == spec_pool_config(config)
                    &&& p.spec_pool().spec_pool_size() == 0
                    &&& p.spec_pool().spec_in_flight() == 0
                    &&& p.spec_pool().spec_outstanding_creates() == 0
                    &&& p.spec_pool().spec_idle().len() == 0
                    &&& p.spec_pool().spec_waiting().len() == 0
                    &&& p.spec_pool().spec_next_ticket() == 0
                    &&& p.spec_checkout_timeout() == config.checkout_timeout_ms
                    &&& p.spec_connected_to() == config.connect_to_nodes@
                    &&& p.spec_last_stats_at() == 0
                },
                Err(e) => {
                    &&& (config.desired_pool_size == 0 || config.connect_to_nodes.len() == 0)
                    &&& e.spec_message() == Some(
                        if config.desired_pool_size == 0 {
                            "'desired_pool_size' must be at least 1"@
                        } else {
                            "there is nothing to connect to."@
                        },
                    )
                },
            },
    {
        if config.desired_pool_size == 0 {
            return Err(
                crate::error::InitializationError::message_only(
                    String::from_str("'desired_pool_size' must be at least 1"),
                ),
            );
        }
        if config.connect_to_nodes.len() == 0 {
            return Err(
                crate::error::InitializationError::message_only(
                    String::from_str("there is nothing to connect to."),
                ),
            );
        }
        let pool_config = PoolConfig {
            desired_pool_size: config.desired_pool_size,
            backoff_strategy: config.backoff_strategy,
            reservation_limit: config.reservation_limit,
            stats_interval_ms: config.stats_interval_ms,
            activation_order: config.activation_order,
        };
        Ok(
            SharedPool {
                pool: InnerPool::new(pool_config),
                checkout_timeout_ms: config.checkout_timeout_ms,
                connected_to: config.connect_to_nodes,
                last_stats_at: 0,
            },
        )
    }

    /// Checks a connection out under the pool's own deadline.
    pub fn check_out(&mut self, now: u64) -> (r: Result<PoolCheckout<T>, CheckoutError>)
        requires
            old(self).wf(),
            old(self).spec_pool().spec_can_enqueue(),
        ensures
            final(self).wf(),
            final(self).spec_checkout_timeout() == old(self).spec_checkout_timeout(),
            final(self).spec_connected_to() == old(self).spec_connected_to(),
            shared_check_out_post(*old(self), *final(self), now, r, old(self).spec_checkout_timeout()),
    {
        let timeout_ms = self.checkout_timeout_ms;
        self.check_out_explicit_timeout(timeout_ms, now)
    }

    /// Checks a connection out under the given deadline; `None` waits
    /// indefinitely, `Some(0)` gives up unless a connection is idle
    /// right now.
    pub fn check_out_explicit_timeout(&mut self, timeout_ms: Option<u64>, now: u64) -> (r: Result<
        PoolCheckout<T>,
        CheckoutError,
    >)
        requires
            old(self).wf(),
            old(self).spec_pool().spec_can_enqueue(),
        ensures
            final(self).wf(),
            final(self).spec_checkout_timeout() == old(self).spec_checkout_timeout(),
            final(self).spec_connected_to() == old(self).spec_connected_to(),
            shared_check_out_post(*old(self), *final(self), now, r, timeout_ms),
    {
        match self.pool.check_out(now) {
            Ok(CheckOutReply::Granted(m)) => Ok(PoolCheckout::Ready { pool_index: 0, handle: m }),
            Ok(CheckOutReply::Enqueued { ticket }) => Ok(
                PoolCheckout::Waiting { pool_index: 0, ticket, timeout_ms, retry: None },
            ),
            Err(e) => Err(e),
        }
    }

    /// Folds a returned, fresh or dropped connection back in.
    pub fn check_in(&mut self, parcel: CheckInParcel<T>, now: u64) -> (r: CheckInOutcome<T>)
        requires
            old(self).wf(),
            parcel matches CheckInParcel::Alive(m) ==> m.value is Some && m.checked_out_at is Some
                && !m.marked_for_kill && old(self).spec_pool().spec_in_flight() >= 1,
            parcel matches CheckInParcel::Fresh(m) ==> m.value is Some && m.checked_out_at is None
                && !m.marked_for_kill && old(self).spec_pool().spec_outstanding_creates() >= 1,
            parcel matches CheckInParcel::Dropped { flight_ms, .. } ==> flight_ms is Some && old(
                self,
            ).spec_pool().spec_in_flight() >= 1 && old(self).spec_pool().spec_pool_size() >= 1,
        ensures
            final(self).wf(),
            unchanged_but_pool(*old(self), *final(self)),
            check_in_post(old(self).spec_pool(), final(self).spec_pool(), parcel, now, r),
    {
        self.pool.check_in(parcel, now)
    }

    /// Abandons the reservation that holds `ticket`.
    pub fn cancel_waiter(&mut self, ticket: u64) -> (r: Option<u64>)
        requires
            old(self).wf(),
        ensures
            final(self).wf(),
            unchanged_but_pool(*old(self), *final(self)),
            cancel_post(old(self).spec_pool(), final(self).spec_pool(), ticket, r),
    {
        self.pool.cancel_waiter(ticket)
    }

    /// Shrinks the pool by one connection.
    pub fn remove_conn(&mut self) -> (r: Option<Managed<T>>)
        requires
            old(self).wf(),
        ensures
            final(self).wf(),
            unchanged_but_pool(*old(self), *final(self)),
            remove_conn_post(old(self).spec_pool(), final(self).spec_pool(), r),
    {
        self.pool.remove_conn()
    }

    /// Draws one creation request to send to the creation stream.
    pub fn request_new_conn(&mut self) -> (msg: NewConnMessage)
        requires
            old(self).wf(),
            old(self).spec_pool().spec_pool_size() + old(self).spec_pool().spec_outstanding_creates()
                < old(self).spec_pool().spec_config().desired_pool_size,
        ensures
            final(self).wf(),
            unchanged_but_pool(*old(self), *final(self)),
            msg == NewConnMessage::RequestNewConn,
            final(self).spec_pool().spec_outstanding_creates() == old(
                self,
            ).spec_pool().spec_outstanding_creates() + 1,
            final(self).spec_pool().spec_idle() == old(self).spec_pool().spec_idle(),
            final(self).spec_pool().spec_waiting() == old(self).spec_pool().spec_waiting(),
            final(self).spec_pool().spec_pool_size() == old(self).spec_pool().spec_pool_size(),
            final(self).spec_pool().spec_in_flight() == old(self).spec_pool().spec_in_flight(),
            final(self).spec_pool().spec_next_ticket() == old(self).spec_pool().spec_next_ticket(),
            final(self).spec_pool().spec_config() == old(self).spec_pool().spec_config(),
    {
        self.pool.request_new_conn()
    }

    /// Sampled statistics of the pool.
    pub fn stats(&self) -> (r: PoolStats)
        requires
            self.wf(),
        ensures
            r.pool_size.0 == self.spec_pool().spec_pool_size() && r.pool_size.1 == self.spec_pool(
            ).spec_pool_size(),
            r.in_flight.0 == self.spec_pool().spec_in_flight() && r.in_flight.1 == self.spec_pool(
            ).spec_in_flight(),
            r.reservations.0 == self.spec_pool().spec_reservations() && r.reservations.1
                == self.spec_pool().spec_reservations(),
            r.idle.0 == self.spec_pool().spec_idle().len() && r.idle.1 == self.spec_pool(
            ).spec_idle().len(),
            r.node_count == 1,
    {
        self.pool.stats()
    }

    /// Hands stats out when the configured interval has passed since
    /// they were last handed out, so the caller can emit them.
    pub fn trigger_stats(&mut self, now: u64) -> (r: Option<PoolStats>)
        requires
            old(self).wf(),
        ensures
            final(self).wf(),
            final(self).spec_pool() == old(self).spec_pool(),
            final(self).spec_checkout_timeout() == old(self).spec_checkout_timeout(),
            final(self).spec_connected_to() == old(self).spec_connected_to(),
            if spec_elapsed(now, old(self).spec_last_stats_at()) >= old(
                self,
            ).spec_pool().spec_config().stats_interval_ms {
                &&& final(self).spec_last_stats_at() == now
                &&& (r matches Some(s) && {
                    &&& s.pool_size.0 == old(self).spec_pool().spec_pool_size()
                    &&& s.pool_size.1 == old(self).spec_pool().spec_pool_size()
                    &&& s.in_flight.0 == old(self).spec_pool().spec_in_flight()
                    &&& s.in_flight.1 == old(self).spec_pool().spec_in_flight()
                    &&& s.reservations.0 == old(self).spec_pool().spec_reservations()
                    &&& s.reservations.1 == old(self).spec_pool().spec_reservations()
                    &&& s.idle.0 == old(self).spec_pool().spec_idle().len()
                    &&& s.idle.1 == old(self).spec_pool().spec_idle().len()
                    &&& s.node_count == 1
                })
            } else {
                &&& r is None
                &&& final(self).spec_last_stats_at() == old(self).spec_last_stats_at()
            },
    {
        let interval = self.pool.config().stats_interval_ms;
        if crate::pool::elapsed_ms(now, self.last_stats_at) >= interval {
            self.last_stats_at = now;
            Some(self.pool.stats())
        } else {
            None
        }
    }

    /// Whether another checkout can still be enqueued.
    pub fn can_enqueue(&self) -> (r: bool)
        ensures
            r == self.spec_pool().spec_can_enqueue(),
    {
        self.pool.can_enqueue()
    }

    /// The exact counters of the pool.
    pub fn state(&self) -> (r: PoolState)
        ensures
            r.pool_size == self.spec_pool().spec_pool_size(),
            r.in_flight == self.spec_pool().spec_in_flight(),
            r.reservations == self.spec_pool().spec_reservations(),
            r.idle == self.spec_pool().spec_idle().len(),
            r.outstanding_creates == self.spec_pool().spec_outstanding_creates(),
    {
        self.pool.state()
    }

    /// The URIs this pool connects to.
    pub fn connected_to(&self) -> (r: &Vec<String>)
        ensures
            r@ == self.spec_connected_to(),
    {
        &self.connected_to
    }
}

/// Everything but the arbitration core stands still.
pub open spec fn unchanged_but_pool<T: Poolable>(o: SharedPool<T>, f: SharedPool<T>) -> bool {
    &&& f.spec_checkout_timeout() == o.spec_checkout_timeout()
    &&& f.spec_connected_to() == o.spec_connected_to()
    &&& f.spec_last_stats_at() == o.spec_last_stats_at()
}

/// What a shared-pool checkout must look like: the reply of the core,
/// with enqueued checkouts carrying the deadline to arm.
pub open spec fn shared_check_out_post<T: Poolable>(
    o: SharedPool<T>,
    f: SharedPool<T>,
    now: u64,
    r: Result<PoolCheckout<T>, CheckoutError>,
    timeout_ms: Option<u64>,
) -> bool {
    &&& f.spec_last_stats_at() == o.spec_last_stats_at()
    &&& match r {
        Ok(PoolCheckout::Ready { pool_index, handle }) => {
            &&& pool_index == 0
            &&& check_out_post(
                o.spec_pool(),
                f.spec_pool(),
                now,
                Ok(CheckOutReply::Granted(handle)),
            )
        },
        Ok(PoolCheckout::Waiting { pool_index, ticket, timeout_ms: t, retry }) => {
            &&& pool_index == 0
            &&& t == timeout_ms
            &&& retry == None::<crate::pools::DispatchPoint>
            &&& check_out_post(
                o.spec_pool(),
                f.spec_pool(),
                now,
                Ok(CheckOutReply::<T>::Enqueued { ticket }),
            )
        },
        Err(e) => check_out_post(o.spec_pool(), f.spec_pool(), now, Err(e)),
    }
}

} // verus!
