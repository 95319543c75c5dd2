use vstd::prelude::*;

use crate::error::{CheckoutError, InitializationResult};
use crate::pool::inner_pool::{
    cancel_post, check_in_post, check_out_post, remove_conn_post, CheckInOutcome, CheckOutReply,
    InnerPool,
};
use crate::pool::{CheckInParcel, Config as PoolConfig, Managed, NewConnMessage, PoolState};
use crate::pools::shared_pool::spec_pool_config;
use crate::Poolable;

verus! {

/// A pool that maintains connections to one node only.
pub struct SinglePool<T: Poolable> {
    pool: InnerPool<T>,
    connected_to: String,
}

impl<T: Poolable> SinglePool<T> {
    /// The arbitration core.
    pub closed spec fn spec_pool(&self) -> InnerPool<T> {
        self.pool
    }

    /// The URI this pool connects to.
    pub closed spec fn spec_connected_to(&self) -> Seq<char> {
        self.connected_to@
    }

    pub open spec fn wf(&self) -> bool {
        self.spec_pool().wf()
    }

    /// Sets the pool up from a client configuration. Initialization is
    /// refused for a zero pool size and unless exactly one node is
    /// given.
    pub fn new(config: crate::config::Config) -> (r: InitializationResult<SinglePool<T>>)
        ensures
            match r {
                Ok(p) => {
                    &&& config.desired_pool_size >= 1
                    &&& config.connect_to_nodes.len() == 1
                    &&& p.wf()
                    &&& p.spec_pool().spec_config() == spec_pool_config(config)
                    &&& p.spec_pool().spec_pool_size() == 0
                    &&& p.spec_pool().spec_in_flight() == 0
                    &&& p.spec_pool().spec_outstanding_creates() == 0
                    &&& p.spec_pool().spec_idle().len() == 0
                    &&& p.spec_pool().spec_waiting().len() == 0
                    &&& p.spec_pool().spec_next_ticket() == 0
                    &&& p.spec_connected_to() == config.connect_to_nodes@[0]@
                },
                Err(e) => {
                    &&& (config.desired_pool_size == 0 || config.connect_to_nodes.len() != 1)
                    &&& e.spec_message() == Some(
                        if config.desired_pool_size == 0 {
                            "'desired_pool_size' must be at least one"@
                        } else {
                            "there must be exactly 1 connection string given"@
                        },
                    )
                },
            },
    {
        if config.desired_pool_size == 0 {
            return Err(
                crate::error::InitializationError::message_only(
                    String::from_str("'desired_pool_size' must be at least one"),
                ),
            );
        }
        if config.connect_to_nodes.len() != 1 {
            return Err(
                crate::error::InitializationError::message_only(
                    String::from_str("there must be exactly 1 connection string given"),
                ),
            );
        }
        let mut nodes = config.connect_to_nodes;
        let connect_to = nodes.pop().unwrap();
        let pool_config = PoolConfig {
            desired_pool_size: config.desired_pool_size,
            backoff_strategy: config.backoff_strategy,
            reservation_limit: config.reservation_limit,
            stats_interval_ms: config.stats_interval_ms,
            activation_order: config.activation_order,
        };
        Ok(SinglePool { pool: InnerPool::new(pool_config), connected_to: connect_to })
    }

    /// Checks a connection out; the caller arms its own deadline for
    /// an enqueued checkout.
    pub fn check_out(&mut self, now: u64) -> (r: Result<CheckOutReply<T>, CheckoutError>)
        requires
            old(self).wf(),
            old(self).spec_pool().spec_can_enqueue(),
        ensures
            final(self).wf(),
            final(self).spec_connected_to() == old(self).spec_connected_to(),
            check_out_post(old(self).spec_pool(), final(self).spec_pool(), now, r),
    {
        self.pool.check_out(now)
    }

    /// Folds a returned, fresh or dropped connection back in.
    pub fn check_in(&mut self, parcel: CheckInParcel<T>, now: u64) -> (r: CheckInOutcome<T>)
        requires
            old(self).wf(),
            parcel matches CheckInParcel::Alive(m) ==> m.value is Some && m.checked_out_at is Some
                && !m.marked_for_kill && old(self).spec_pool().spec_in_flight() >= 1,
            parcel matches CheckInParcel::Fresh(m) ==> m.value is Some && m.checked_out_at is None
                && !m.marked_for_kill && old(self).spec_pool().spec_outstanding_creates() >= 1,
            parcel matches CheckInParcel::Dropped { flight_ms, .. } ==> flight_ms is Some && old(
                self,
            ).spec_pool().spec_in_flight() >= 1 && old(self).spec_pool().spec_pool_size() >= 1,
        ensures
            final(self).wf(),
            final(self).spec_connected_to() == old(self).spec_connected_to(),
            check_in_post(old(self).spec_pool(), final(self).spec_pool(), parcel, now, r),
    {
        self.pool.check_in(parcel, now)
    }

    /// Abandons the reservation that holds `ticket`.
    pub fn cancel_waiter(&mut self, ticket: u64) -> (r: Option<u64>)
        requires
            old(self).wf(),
        ensures
            final(self).wf(),
            final(self).spec_connected_to() == old(self).spec_connected_to(),
            cancel_post(old(self).spec_pool(), final(self).spec_pool(), ticket, r),
    {
        self.pool.cancel_waiter(ticket)
    }

    /// Shrinks the pool by one connection.
    pub fn remove_conn(&mut self) -> (r: Option<Managed<T>>)
        requires
            old(self).wf(),
        ensures
            final(self).wf(),
            final(self).spec_connected_to() == old(self).spec_connected_to(),
            remove_conn_post(old(self).spec_pool(), final(self).spec_pool(), r),
    {
        self.pool.remove_conn()
    }

    /// Draws one creation request to send to the creation stream.
    pub fn request_new_conn(&mut self) -> (msg: NewConnMessage)
        requires
            old(self).wf(),
            old(self).spec_pool().spec_pool_size() + old(self).spec_pool().spec_outstanding_creates()
                < old(self).spec_pool().spec_config().desired_pool_size,
        ensures
            final(self).wf(),
            final(self).spec_connected_to() == old(self).spec_connected_to(),
            msg == NewConnMessage::RequestNewConn,
            final(self).spec_pool().spec_outstanding_creates() == old(
                self,
            ).spec_pool().spec_outstanding_creates() + 1,
            final(self).spec_pool().spec_idle() == old(self).spec_pool().spec_idle(),
            final(self).spec_pool().spec_waiting() == old(self).spec_pool().spec_waiting(),
            final(self).spec_pool().spec_pool_size() == old(self).spec_pool().spec_pool_size(),
            final(self).spec_pool().spec_in_flight() == old(self).spec_pool().spec_in_flight(),
            final(self).spec_pool().spec_next_ticket() == old(self).spec_pool().spec_next_ticket(),
            final(self).spec_pool().spec_config() == old(self).spec_pool().spec_config(),
    {
        self.pool.request_new_conn()
    }

    /// The exact counters of the pool.
    pub fn state(&self) -> (r: PoolState)
        ensures
            r.pool_size == self.spec_pool().spec_pool_size(),
            r.in_flight == self.spec_pool().spec_in_flight(),
            r.reservations == self.spec_pool().spec_reservations(),
            r.idle == self.spec_pool().spec_idle().len(),
            r.outstanding_creates == self.spec_pool().spec_outstanding_creates(),
    {
        self.pool.state()
    }

    /// The URI this pool connects to.
    pub fn connected_to(&self) -> (r: &str)
        ensures
            r@ == self.spec_connected_to(),
    {
        self.connected_to.as_str()
    }
}

} // verus!
