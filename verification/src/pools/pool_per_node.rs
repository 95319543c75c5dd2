use vstd::prelude::*;

use crate::error::{CheckoutError, CheckoutErrorKind, InitializationResult};
use crate::pool::inner_pool::{
    cancel_post, check_in_post, check_out_post, remove_conn_post, reservation_count,
    CheckInOutcome, CheckOutReply, InnerPool,
};
use crate::pool::{CheckInParcel, Config as PoolConfig, Managed, NewConnMessage, PoolStats};
use crate::pools::shared_pool::spec_pool_config;
use crate::pools::{DispatchPoint, PoolCheckout};
use crate::Poolable;

verus! {

/// The index the round-robin dispatch visits on its `a`-th attempt
/// when the cursor stood at `k`.
pub open spec fn rr_index(k: int, a: int, len: int) -> int {
    (k + a) % len
}

/// A pool refuses a checkout at once when nothing is idle and its
/// reservation limit is reached.
pub open spec fn would_refuse<T: Poolable>(p: InnerPool<T>) -> bool {
    &&& p.spec_idle().len() == 0
    &&& match p.spec_config().reservation_limit {
        Some(limit) => reservation_count(p.spec_waiting()) >= limit,
        None => false,
    }
}

/// A pool as `InnerPool::new` leaves it, under the given
/// configuration.
pub open spec fn spec_fresh_pool<T: Poolable>(p: InnerPool<T>, pc: PoolConfig) -> bool {
    &&& p.wf()
    &&& p.spec_config() == pc
    &&& p.spec_pool_size() == 0
    &&& p.spec_in_flight() == 0
    &&& p.spec_outstanding_creates() == 0
    &&& p.spec_idle().len() == 0
    &&& p.spec_waiting().len() == 0
    &&& p.spec_next_ticket() == 0
}

/// A quotient rounded towards the next whole number.
pub open spec fn spec_div_ceil(x: int, m: int) -> int {
    (x + m - 1) / m
}

/// Divides, rounding up.
pub fn div_ceil(x: usize, m: usize) -> (r: usize)
    requires
        m >= 1,
    ensures
        r == spec_div_ceil(x as int, m as int),
        x >= 1 ==> r >= 1,
{
    proof {
        vstd::arithmetic::div_mod::lemma_fundamental_div_mod(x as int, m as int);
        vstd::arithmetic::div_mod::lemma_mod_bound(x as int, m as int);
        let xi = x as int;
        let mi = m as int;
        let q = xi / mi;
        let rem = xi % mi;
        vstd::arithmetic::div_mod::lemma_div_of0(mi);
        vstd::arithmetic::div_mod::lemma_div_is_ordered(0, xi, mi);
        if rem == 0 {
            assert(xi + mi - 1 == q * mi + (mi - 1)) by (nonlinear_arith)
                requires
                    xi == mi * q + rem,
                    rem == 0,
            ;
            vstd::arithmetic::div_mod::lemma_fundamental_div_mod_converse(
                xi + mi - 1,
                mi,
                q,
                mi - 1,
            );
            assert(xi >= 1 ==> q >= 1) by (nonlinear_arith)
                requires
                    xi == mi * q + rem,
                    rem == 0,
                    mi >= 1,
                    q >= 0,
            ;
        } else {
            assert(xi + mi - 1 == (q + 1) * mi + (rem - 1)) by (nonlinear_arith)
                requires
                    xi == mi * q + rem,
            ;
            vstd::arithmetic::div_mod::lemma_fundamental_div_mod_converse(
                xi + mi - 1,
                mi,
                q + 1,
                rem - 1,
            );
            assert(q + 1 <= xi) by (nonlinear_arith)
                requires
                    xi == mi * q + rem,
                    rem >= 1,
                    mi >= 1,
                    q >= 0,
            ;
        }
    }
    if x % m == 0 {
        x / m
    } else {
        x / m + 1
    }
}

/// The per-pool configuration a client configuration induces when its
/// pools are multiplied: the desired size and the reservation limit
/// are divided among the multiplied pools, rounded up.
pub open spec fn spec_adjusted_pool_config(c: crate::config::Config) -> PoolConfig {
    if c.pool_per_node_multiplier == 1 {
        spec_pool_config(c)
    } else {
        PoolConfig {
            desired_pool_size: spec_div_ceil(
                c.desired_pool_size as int,
                c.pool_per_node_multiplier as int,
            ) as usize,
            backoff_strategy: c.backoff_strategy,
            reservation_limit: match c.reservation_limit {
                Some(limit) => Some(
                    spec_div_ceil(limit as int, c.pool_per_node_multiplier as int) as usize,
                ),
                None => None,
            },
            stats_interval_ms: c.stats_interval_ms,
            activation_order: c.activation_order,
        }
    }
}

/// The round-robin heart of the pool-per-node strategy: one
/// arbitration core per pool, a cursor that advances by one on every
/// checkout, and failover to the next sibling when a pool refuses or
/// when the wait on it fails and the dispatch is resumed.
pub struct Inner<T: Poolable> {
    count: usize,
    pools: Vec<InnerPool<T>>,
    connected_to: Vec<String>,
}

impl<T: Poolable> Inner<T> {
    /// The sibling pools. The pool at index `j` serves the node at
    /// index `j` modulo the node count.
    pub closed spec fn spec_pools(&self) -> Seq<InnerPool<T>> {
        self.pools@
    }

    /// The round-robin cursor.
    pub closed spec fn spec_count(&self) -> int {
        self.count as int
    }

    /// The URIs of the distinct nodes.
    pub closed spec fn spec_connected_to(&self) -> Seq<String> {
        self.connected_to@
    }

    pub open spec fn wf(&self) -> bool {
        &&& forall|j: int|
            0 <= j < self.spec_pools().len() ==> (#[trigger] self.spec_pools()[j]).wf()
        &&& self.spec_pools().len() > 0 ==> 0 <= self.spec_count() < self.spec_pools().len()
        &&& self.spec_pools().len() == 0 ==> self.spec_count() == 0
    }

    /// Every sibling can still enqueue a checkout.
    pub open spec fn spec_can_enqueue(&self) -> bool {
        forall|j: int|
            0 <= j < self.spec_pools().len() ==> (#[trigger] self.spec_pools()[j]).spec_can_enqueue()
    }

    /// Builds one pool per node, multiplied by the configured
    /// multiplier, each under the adjusted configuration.
    /// Initialization is refused for a zero multiplier and for a zero
    /// pool size.
    pub fn new(config: crate::config::Config) -> (r: InitializationResult<Inner<T>>)
        ensures
            match r {
                Ok(inner) => {
                    &&& config.pool_per_node_multiplier >= 1
                    &&& config.desired_pool_size >= 1
                    &&& inner.wf()
                    &&& inner.spec_count() == 0
                    &&& inner.spec_pools().len() == config.pool_per_node_multiplier
                        * config.connect_to_nodes.len()
                    &&& forall|j: int|
                        0 <= j < inner.spec_pools().len() ==> spec_fresh_pool(
                            #[trigger] inner.spec_pools()[j],
                            spec_adjusted_pool_config(config),
                        )
                    &&& inner.spec_connected_to() == config.connect_to_nodes@
                },
                Err(e) => {
                    &&& (config.pool_per_node_multiplier == 0 || config.desired_pool_size == 0)
                    &&& e.spec_message() == Some(
                        if config.pool_per_node_multiplier == 0 {
                            "pool_per_node_multiplier may not be zero"@
                        } else {
                            "'desired_pool_size' must be at least 1"@
                        },
                    )
                },
            },
    {
        if config.pool_per_node_multiplier == 0 {
            return Err(
                crate::error::InitializationError::message_only(
                    String::from_str("pool_per_node_multiplier may not be zero"),
                ),
            );
        }
        if config.desired_pool_size == 0 {
            return Err(
                crate::error::InitializationError::message_only(
                    String::from_str("'desired_pool_size' must be at least 1"),
                ),
            );
        }
        let multiplier = config.pool_per_node_multiplier;
        let pool_config = if multiplier == 1 {
            PoolConfig {
                desired_pool_size: config.desired_pool_size,
                backoff_strategy: config.backoff_strategy,
                reservation_limit: config.reservation_limit,
                stats_interval_ms: config.stats_interval_ms,
                activation_order: config.activation_order,
            }
        } else {
            PoolConfig {
                desired_pool_size: div_ceil(config.desired_pool_size, multiplier),
                backoff_strategy: config.backoff_strategy,
                reservation_limit: match config.reservation_limit {
                    Some(limit) => Some(div_ceil(limit, multiplier)),
                    None => None,
                },
                stats_interval_ms: config.stats_interval_ms,
                activation_order: config.activation_order,
            }
        };
        let node_count = config.connect_to_nodes.len();
        let mut pools: Vec<InnerPool<T>> = Vec::new();
        let mut round: usize = 0;
        while round < multiplier
            invariant
                pool_config == spec_adjusted_pool_config(config),
                pool_config.wf(),
                node_count == config.connect_to_nodes.len(),
                0 <= round <= multiplier,
                pools@.len() == round * node_count,
                forall|j: int|
                    0 <= j < pools@.len() ==> spec_fresh_pool(#[trigger] pools@[j], pool_config),
            decreases multiplier - round,
        {
            let mut j: usize = 0;
            while j < node_count
                invariant
                    pool_config == spec_adjusted_pool_config(config),
                    pool_config.wf(),
                    0 <= j <= node_count,
                    pools@.len() == round * node_count + j,
                    round < multiplier,
                    forall|i: int|
                        0 <= i < pools@.len() ==> spec_fresh_pool(#[trigger] pools@[i], pool_config),
                decreases node_count - j,
            {
                pools.push(InnerPool::new(pool_config));
                j = j + 1;
            }
            round = round + 1;
            proof {
                vstd::arithmetic::mul::lemma_mul_is_distributive_add_other_way(
                    node_count as int,
                    round as int - 1,
                    1,
                );
            }
        }
        Ok(Inner { count: 0, pools, connected_to: config.connect_to_nodes })
    }

    /// The number of sibling pools.
    pub fn pool_count(&self) -> (r: usize)
        ensures
            r == self.spec_pools().len(),
    {
        self.pools.len()
    }

    /// Whether every sibling can still enqueue a checkout.
    pub fn can_enqueue(&self) -> (r: bool)
        ensures
            r == self.spec_can_enqueue(),
    {
        let len = self.pools.len();
        let mut j: usize = 0;
        while j < len
            invariant
                len == self.spec_pools().len(),
                0 <= j <= len,
                forall|i: int|
                    0 <= i < j ==> (#[trigger] self.spec_pools()[i]).spec_can_enqueue(),
            decreases len - j,
        {
            if !self.pools[j].can_enqueue() {
                return false;
            }
            j = j + 1;
        }
        true
    }

    /// The node a sibling pool serves: its index in the node list.
    pub fn node_of_pool(&self, pool_index: usize) -> (r: usize)
        requires
            self.spec_connected_to().len() > 0,
        ensures
            r == pool_index as int % self.spec_connected_to().len() as int,
    {
        pool_index % self.connected_to.len()
    }

    /// Checks a connection out: the cursor advances by one, and the
    /// dispatch walks the siblings in round-robin order from it; the
    /// first that does not refuse answers. An enqueued answer names
    /// the dispatch point, so that a failed wait resumes the walk with
    /// `resume_check_out` and fails over to the next sibling. When
    /// every sibling refuses, the checkout fails with `NoConnection`;
    /// with no pools at all, with `NoPool`.
    pub fn check_out_explicit_timeout(&mut self, timeout_ms: Option<u64>, now: u64) -> (r: Result<
        PoolCheckout<T>,
        CheckoutError,
    >)
        requires
            old(self).wf(),
            old(self).spec_can_enqueue(),
        ensures
            final(self).wf(),
            multi_check_out_post(*old(self), *final(self), now, r, timeout_ms),
    {
        let len = self.pools.len();
        if len == 0 {
            return Err(CheckoutError::new(CheckoutErrorKind::NoPool));
        }
        let k = self.count;
        self.count = if k + 1 == len {
            0
        } else {
            k + 1
        };
        proof {
            if k + 1 == len {
                assert((k as int + 1) % len as int == 0) by {
                    vstd::arithmetic::div_mod::lemma_mod_self_0(len as int);
                }
            } else {
                assert((k as int + 1) % len as int == k as int + 1) by {
                    vstd::arithmetic::div_mod::lemma_small_mod((k + 1) as nat, len as nat);
                }
            }
        }
        let ghost mid = *self;
        let r = self.resume_check_out(k, 0, timeout_ms, now);
        proof {
            if r is Err {
                let leni = len as int;
                let ki = k as int;
                assert forall|j: int| 0 <= j < leni implies would_refuse(
                    #[trigger] old(self).spec_pools()[j],
                ) by {
                    let b = (j - ki) % leni;
                    vstd::arithmetic::div_mod::lemma_mod_bound(j - ki, leni);
                    vstd::arithmetic::div_mod::lemma_add_mod_noop_right(ki, j - ki, leni);
                    vstd::arithmetic::div_mod::lemma_small_mod(j as nat, leni as nat);
                    assert(rr_index(ki, b, leni) == j);
                    assert(would_refuse(mid.spec_pools()[rr_index(ki, b, leni)]));
                }
            }
        }
        r
    }

    /// Resumes one dispatch's round-robin walk after the wait at its
    /// current attempt failed: the caller abandons its ticket first,
    /// then the siblings from `start_attempt` on are tried in order.
    /// The cursor does not move again; over one dispatch every sibling
    /// is awaited at most once, and when the attempts are worn out the
    /// checkout fails with `NoConnection`.
    pub fn resume_check_out(
        &mut self,
        cursor: usize,
        start_attempt: usize,
        timeout_ms: Option<u64>,
        now: u64,
    ) -> (r: Result<PoolCheckout<T>, CheckoutError>)
        requires
            old(self).wf(),
            old(self).spec_can_enqueue(),
            old(self).spec_pools().len() > 0,
            cursor < old(self).spec_pools().len(),
        ensures
            final(self).wf(),
            final(self).spec_count() == old(self).spec_count(),
            multi_dispatch_post(
                *old(self),
                *final(self),
                now,
                r,
                timeout_ms,
                cursor as int,
                start_attempt as int,
            ),
    {
        let len = self.pools.len();
        let k = cursor;
        let mut a: usize = start_attempt;
        while a < len
            invariant
                old(self).wf(),
                old(self).spec_can_enqueue(),
                len == old(self).spec_pools().len(),
                0 < len,
                0 <= k < len,
                k == cursor,
                start_attempt <= a,
                self.spec_pools() == old(self).spec_pools(),
                self.spec_connected_to() == old(self).spec_connected_to(),
                self.spec_count() == old(self).spec_count(),
                forall|b: int|
                    start_attempt <= b < a ==> would_refuse(
                        #[trigger] old(self).spec_pools()[rr_index(k as int, b, len as int)],
                    ),
            decreases len - a,
        {
            let idx = if a < len - k {
                k + a
            } else {
                a - (len - k)
            };
            proof {
                if a < len - k {
                    vstd::arithmetic::div_mod::lemma_small_mod((k + a) as nat, len as nat);
                } else {
                    vstd::arithmetic::div_mod::lemma_fundamental_div_mod_converse(
                        k as int + a as int,
                        len as int,
                        1,
                        idx as int,
                    );
                }
                assert(idx as int == rr_index(k as int, a as int, len as int));
            }
            let ghost pools_before = self.spec_pools();
            let mut p = self.pools.remove(idx);
            let res = p.check_out(now);
            self.pools.insert(idx, p);
            proof {
                assert(self.spec_pools() =~= pools_before.update(idx as int, self.spec_pools()[idx as int]));
            }
            match res {
                Ok(CheckOutReply::Granted(m)) => {
                    return Ok(PoolCheckout::Ready { pool_index: idx, handle: m });
                },
                Ok(CheckOutReply::Enqueued { ticket }) => {
                    return Ok(
                        PoolCheckout::Waiting {
                            pool_index: idx,
                            ticket,
                            timeout_ms,
                            retry: Some(DispatchPoint { cursor: k, attempt: a }),
                        },
                    );
                },
                Err(_) => {
                    proof {
                        assert(self.spec_pools() =~= pools_before);
                    }
                },
            }
            a = a + 1;
        }
        Err(CheckoutError::new(CheckoutErrorKind::NoConnection))
    }
}

/// Only the pool at `idx` moved.
pub open spec fn pools_updated_at<T: Poolable>(o: Inner<T>, f: Inner<T>, idx: int) -> bool {
    &&& f.spec_count() == o.spec_count()
    &&& f.spec_connected_to() == o.spec_connected_to()
    &&& f.spec_pools().len() == o.spec_pools().len()
    &&& f.spec_pools() == o.spec_pools().update(idx, f.spec_pools()[idx])
}

impl<T: Poolable> Inner<T> {
    /// Folds a returned, fresh or dropped connection back into the
    /// pool it came from.
    pub fn check_in(&mut self, pool_index: usize, parcel: CheckInParcel<T>, now: u64) -> (r:
        CheckInOutcome<T>)
        requires
            old(self).wf(),
            pool_index < old(self).spec_pools().len(),
            parcel matches CheckInParcel::Alive(m) ==> m.value is Some && m.checked_out_at is Some
                && !m.marked_for_kill && old(self).spec_pools()[pool_index as int].spec_in_flight()
                >= 1,
            parcel matches CheckInParcel::Fresh(m) ==> m.value is Some && m.checked_out_at is None
                && !m.marked_for_kill && old(
                self,
            ).spec_pools()[pool_index as int].spec_outstanding_creates() >= 1,
            parcel matches CheckInParcel::Dropped { flight_ms, .. } ==> flight_ms is Some && old(
                self,
            ).spec_pools()[pool_index as int].spec_in_flight() >= 1 && old(
                self,
            ).spec_pools()[pool_index as int].spec_pool_size() >= 1,
        ensures
            final(self).wf(),
            pools_updated_at(*old(self), *final(self), pool_index as int),
            check_in_post(
                old(self).spec_pools()[pool_index as int],
                final(self).spec_pools()[pool_index as int],
                parcel,
                now,
                r,
            ),
    {
        let ghost pools_before = self.spec_pools();
        let mut p = self.pools.remove(pool_index);
        let r = p.check_in(parcel, now);
        self.pools.insert(pool_index, p);
        proof {
            assert(self.spec_pools() =~= pools_before.update(
                pool_index as int,
                self.spec_pools()[pool_index as int],
            ));
        }
        r
    }

    /// Abandons the reservation that holds `ticket` on the given pool.
    pub fn cancel_waiter(&mut self, pool_index: usize, ticket: u64) -> (r: Option<u64>)
        requires
            old(self).wf(),
            pool_index < old(self).spec_pools().len(),
        ensures
            final(self).wf(),
            pools_updated_at(*old(self), *final(self), pool_index as int),
            cancel_post(
                old(self).spec_pools()[pool_index as int],
                final(self).spec_pools()[pool_index as int],
                ticket,
                r,
            ),
    {
        let ghost pools_before = self.spec_pools();
        let mut p = self.pools.remove(pool_index);
        let r = p.cancel_waiter(ticket);
        self.pools.insert(pool_index, p);
        proof {
            assert(self.spec_pools() =~= pools_before.update(
                pool_index as int,
                self.spec_pools()[pool_index as int],
            ));
        }
        r
    }

    /// Shrinks the given pool by one connection.
    pub fn remove_conn(&mut self, pool_index: usize) -> (r: Option<Managed<T>>)
        requires
            old(self).wf(),
            pool_index < old(self).spec_pools().len(),
        ensures
            final(self).wf(),
            pools_updated_at(*old(self), *final(self), pool_index as int),
            remove_conn_post(
                old(self).spec_pools()[pool_index as int],
                final(self).spec_pools()[pool_index as int],
                r,
            ),
    {
        let ghost pools_before = self.spec_pools();
        let mut p = self.pools.remove(pool_index);
        let r = p.remove_conn();
        self.pools.insert(pool_index, p);
        proof {
            assert(self.spec_pools() =~= pools_before.update(
                pool_index as int,
                self.spec_pools()[pool_index as int],
            ));
        }
        r
    }

    /// Draws one creation request for the given pool.
    pub fn request_new_conn(&mut self, pool_index: usize) -> (msg: NewConnMessage)
        requires
            old(self).wf(),
            pool_index < old(self).spec_pools().len(),
            old(self).spec_pools()[pool_index as int].spec_pool_size() + old(
                self,
            ).spec_pools()[pool_index as int].spec_outstanding_creates() < old(
                self,
            ).spec_pools()[pool_index as int].spec_config().desired_pool_size,
        ensures
            final(self).wf(),
            pools_updated_at(*old(self), *final(self), pool_index as int),
            msg == NewConnMessage::RequestNewConn,
            final(self).spec_pools()[pool_index as int].spec_outstanding_creates() == old(
                self,
            ).spec_pools()[pool_index as int].spec_outstanding_creates() + 1,
            final(self).spec_pools()[pool_index as int].spec_idle() == old(
                self,
            ).spec_pools()[pool_index as int].spec_idle(),
            final(self).spec_pools()[pool_index as int].spec_waiting() == old(
                self,
            ).spec_pools()[pool_index as int].spec_waiting(),
            final(self).spec_pools()[pool_index as int].spec_pool_size() == old(
                self,
            ).spec_pools()[pool_index as int].spec_pool_size(),
            final(self).spec_pools()[pool_index as int].spec_in_flight() == old(
                self,
            ).spec_pools()[pool_index as int].spec_in_flight(),
            final(self).spec_pools()[pool_index as int].spec_config() == old(
                self,
            ).spec_pools()[pool_index as int].spec_config(),
    {
        let ghost pools_before = self.spec_pools();
        let mut p = self.pools.remove(pool_index);
        let msg = p.request_new_conn();
        self.pools.insert(pool_index, p);
        proof {
            assert(self.spec_pools() =~= pools_before.update(
                pool_index as int,
                self.spec_pools()[pool_index as int],
            ));
        }
        msg
    }

    /// Sampled statistics aggregated over the siblings: each counter as
    /// the least and greatest value over all pools, and the number of
    /// pools.
    pub fn stats(&self) -> (r: PoolStats)
        requires
            self.wf(),
        ensures
            r.node_count == self.spec_pools().len(),
            self.spec_pools().len() == 0 ==> r == (PoolStats {
                pool_size: crate::pool::MinMax(0, 0),
                in_flight: crate::pool::MinMax(0, 0),
                reservations: crate::pool::MinMax(0, 0),
                idle: crate::pool::MinMax(0, 0),
                node_count: 0,
            }),
            forall|j: int|
                0 <= j < self.spec_pools().len() ==> {
                    &&& r.pool_size.0 <= (#[trigger] self.spec_pools()[j]).spec_pool_size()
                        <= r.pool_size.1
                    &&& r.in_flight.0 <= self.spec_pools()[j].spec_in_flight() <= r.in_flight.1
                    &&& r.reservations.0 <= self.spec_pools()[j].spec_reservations()
                        <= r.reservations.1
                    &&& r.idle.0 <= self.spec_pools()[j].spec_idle().len() <= r.idle.1
                },
            self.spec_pools().len() > 0 ==> {
                &&& exists|j: int|
                    0 <= j < self.spec_pools().len() && r.pool_size.0 == (
                    #[trigger] self.spec_pools()[j]).spec_pool_size()
                &&& exists|j: int|
                    0 <= j < self.spec_pools().len() && r.pool_size.1 == (
                    #[trigger] self.spec_pools()[j]).spec_pool_size()
                &&& exists|j: int|
                    0 <= j < self.spec_pools().len() && r.in_flight.0 == (
                    #[trigger] self.spec_pools()[j]).spec_in_flight()
                &&& exists|j: int|
                    0 <= j < self.spec_pools().len() && r.in_flight.1 == (
                    #[trigger] self.spec_pools()[j]).spec_in_flight()
                &&& exists|j: int|
                    0 <= j < self.spec_pools().len() && r.reservations.0 == (
                    #[trigger] self.spec_pools()[j]).spec_reservations()
                &&& exists|j: int|
                    0 <= j < self.spec_pools().len() && r.reservations.1 == (
                    #[trigger] self.spec_pools()[j]).spec_reservations()
                &&& exists|j: int|
                    0 <= j < self.spec_pools().len() && r.idle.0 == (
                    #[trigger] self.spec_pools()[j]).spec_idle().len()
                &&& exists|j: int|
                    0 <= j < self.spec_pools().len() && r.idle.1 == (
                    #[trigger] self.spec_pools()[j]).spec_idle().len()
            },
    {
        let len = self.pools.len();
        if len == 0 {
            return PoolStats {
                pool_size: crate::pool::MinMax(0, 0),
                in_flight: crate::pool::MinMax(0, 0),
                reservations: crate::pool::MinMax(0, 0),
                idle: crate::pool::MinMax(0, 0),
                node_count: 0,
            };
        }
        let first = self.pools[0].stats();
        let mut agg = PoolStats { node_count: 1, ..first };
        proof {
            assert(agg.pool_size.0 == self.spec_pools()[0].spec_pool_size());
            assert(agg.in_flight.0 == self.spec_pools()[0].spec_in_flight());
            assert(agg.reservations.0 == self.spec_pools()[0].spec_reservations());
            assert(agg.idle.0 == self.spec_pools()[0].spec_idle().len());
        }
        let mut j: usize = 1;
        while j < len
            invariant
                self.wf(),
                len == self.spec_pools().len(),
                1 <= j <= len,
                agg.node_count == j,
                forall|i: int|
                    0 <= i < j ==> {
                        &&& agg.pool_size.0 <= (#[trigger] self.spec_pools()[i]).spec_pool_size()
                            <= agg.pool_size.1
                        &&& agg.in_flight.0 <= self.spec_pools()[i].spec_in_flight()
                            <= agg.in_flight.1
                        &&& agg.reservations.0 <= self.spec_pools()[i].spec_reservations()
                            <= agg.reservations.1
                        &&& agg.idle.0 <= self.spec_pools()[i].spec_idle().len() <= agg.idle.1
                    },
                exists|i: int|
                    0 <= i < j && agg.pool_size.0 == (
                    #[trigger] self.spec_pools()[i]).spec_pool_size(),
                exists|i: int|
                    0 <= i < j && agg.pool_size.1 == (
                    #[trigger] self.spec_pools()[i]).spec_pool_size(),
                exists|i: int|
                    0 <= i < j && agg.in_flight.0 == (
                    #[trigger] self.spec_pools()[i]).spec_in_flight(),
                exists|i: int|
                    0 <= i < j && agg.in_flight.1 == (
                    #[trigger] self.spec_pools()[i]).spec_in_flight(),
                exists|i: int|
                    0 <= i < j && agg.reservations.0 == (
                    #[trigger] self.spec_pools()[i]).spec_reservations(),
                exists|i: int|
                    0 <= i < j && agg.reservations.1 == (
                    #[trigger] self.spec_pools()[i]).spec_reservations(),
                exists|i: int|
                    0 <= i < j && agg.idle.0 == (
                    #[trigger] self.spec_pools()[i]).spec_idle().len(),
                exists|i: int|
                    0 <= i < j && agg.idle.1 == (
                    #[trigger] self.spec_pools()[i]).spec_idle().len(),
            decreases len - j,
        {
            let s = self.pools[j].stats();
            proof {
                assert(s.pool_size.0 == self.spec_pools()[j as int].spec_pool_size());
                assert(s.in_flight.0 == self.spec_pools()[j as int].spec_in_flight());
                assert(s.reservations.0 == self.spec_pools()[j as int].spec_reservations());
                assert(s.idle.0 == self.spec_pools()[j as int].spec_idle().len());
            }
            agg = PoolStats {
                pool_size: agg.pool_size.merge(&s.pool_size),
                in_flight: agg.in_flight.merge(&s.in_flight),
                reservations: agg.reservations.merge(&s.reservations),
                idle: agg.idle.merge(&s.idle),
                node_count: agg.node_count + 1,
            };
            j = j + 1;
        }
        agg
    }

    /// The URIs of the distinct nodes.
    pub fn connected_to(&self) -> (r: &Vec<String>)
        ensures
            r@ == self.spec_connected_to(),
    {
        &self.connected_to
    }

    /// The exact counters of one sibling pool.
    pub fn pool_state(&self, pool_index: usize) -> (r: crate::pool::PoolState)
        requires
            pool_index < self.spec_pools().len(),
        ensures
            r.pool_size == self.spec_pools()[pool_index as int].spec_pool_size(),
            r.in_flight == self.spec_pools()[pool_index as int].spec_in_flight(),
            r.reservations == self.spec_pools()[pool_index as int].spec_reservations(),
            r.idle == self.spec_pools()[pool_index as int].spec_idle().len(),
            r.outstanding_creates == self.spec_pools()[pool_index as int].spec_outstanding_creates(),
    {
        self.pools[pool_index].state()
    }
}

/// What the round-robin walk from cursor `k`, beginning at attempt
/// `start_attempt`, must look like. Some attempt `a` of the walk
/// answers after every sibling the walk visited before it refused, and
/// only the answering pool moves, exactly as one checkout on it; an
/// enqueued answer names the dispatch point `(k, a)` to resume from.
/// Or every visited sibling refused and the walk fails with
/// `NoConnection`, moving nothing.
pub open spec fn multi_dispatch_post<T: Poolable>(
    o: Inner<T>,
    f: Inner<T>,
    now: u64,
    r: Result<PoolCheckout<T>, CheckoutError>,
    timeout_ms: Option<u64>,
    k: int,
    start_attempt: int,
) -> bool {
    let len = o.spec_pools().len() as int;
    &&& f.spec_connected_to() == o.spec_connected_to()
    &&& f.spec_pools().len() == len
    &&& match r {
        Ok(PoolCheckout::Ready { pool_index, handle }) => exists|a: int|
            #![trigger rr_index(k, a, len)]
            {
                &&& start_attempt <= a < len
                &&& pool_index == rr_index(k, a, len)
                &&& (forall|b: int|
                    start_attempt <= b < a ==> would_refuse(
                        #[trigger] o.spec_pools()[rr_index(k, b, len)],
                    ))
                &&& check_out_post(
                    o.spec_pools()[pool_index as int],
                    f.spec_pools()[pool_index as int],
                    now,
                    Ok(CheckOutReply::Granted(handle)),
                )
                &&& f.spec_pools() == o.spec_pools().update(
                    pool_index as int,
                    f.spec_pools()[pool_index as int],
                )
            },
        Ok(PoolCheckout::Waiting { pool_index, ticket, timeout_ms: t, retry }) => {
            &&& t == timeout_ms
            &&& exists|a: int|
                #![trigger rr_index(k, a, len)]
                {
                    &&& start_attempt <= a < len
                    &&& pool_index == rr_index(k, a, len)
                    &&& retry == Some(
                        DispatchPoint { cursor: k as usize, attempt: a as usize },
                    )
                    &&& (forall|b: int|
                        start_attempt <= b < a ==> would_refuse(
                            #[trigger] o.spec_pools()[rr_index(k, b, len)],
                        ))
                    &&& check_out_post(
                        o.spec_pools()[pool_index as int],
                        f.spec_pools()[pool_index as int],
                        now,
                        Ok(CheckOutReply::<T>::Enqueued { ticket }),
                    )
                    &&& f.spec_pools() == o.spec_pools().update(
                        pool_index as int,
                        f.spec_pools()[pool_index as int],
                    )
                }
        },
        Err(e) => {
            &&& e.spec_kind() == CheckoutErrorKind::NoConnection
            &&& f.spec_pools() == o.spec_pools()
            &&& forall|b: int|
                #![trigger rr_index(k, b, len)]
                start_attempt <= b < len ==> would_refuse(o.spec_pools()[rr_index(k, b, len)])
        },
    }
}

/// What one round-robin checkout must look like. With no pools it
/// fails with `NoPool` and nothing moves. Otherwise the cursor
/// advances by one modulo the pool count and the dispatch walks the
/// siblings from the old cursor, starting at attempt 0; when it fails,
/// every sibling refused.
pub open spec fn multi_check_out_post<T: Poolable>(
    o: Inner<T>,
    f: Inner<T>,
    now: u64,
    r: Result<PoolCheckout<T>, CheckoutError>,
    timeout_ms: Option<u64>,
) -> bool {
    &&& f.spec_connected_to() == o.spec_connected_to()
    &&& (o.spec_pools().len() == 0 ==> {
        &&& f == o
        &&& (r matches Err(e) && e.spec_kind() == CheckoutErrorKind::NoPool)
    })
    &&& (o.spec_pools().len() > 0 ==> {
        let len = o.spec_pools().len() as int;
        let k = o.spec_count();
        &&& f.spec_count() == (k + 1) % len
        &&& multi_dispatch_post(o, f, now, r, timeout_ms, k, 0)
        &&& (r is Err ==> forall|j: int|
            0 <= j < len ==> would_refuse(#[trigger] o.spec_pools()[j]))
    })
}

/// How often the pool at index `i` receives the first attempt over
/// `n` successive checkouts that start with the cursor at `k0`: the
/// `c`-th checkout makes its first attempt at `rr_index(k0, c, len)`,
/// as `multi_check_out_post` states, and the cursor advances by one
/// for every checkout.
pub open spec fn count_first_attempts(k0: int, n: int, len: int, i: int) -> int
    decreases n,
{
    if n <= 0 {
        0
    } else {
        count_first_attempts(k0, n - 1, len, i) + (if rr_index(k0, n - 1, len) == i {
            1int
        } else {
            0int
        })
    }
}

/// The distance from the cursor to the index, along the cycle.
pub open spec fn rr_offset(k0: int, i: int, len: int) -> int {
    (i - k0) % len
}

/// Growing a non-negative number by one raises its quotient exactly
/// when the grown number is a multiple of the divisor.
proof fn lemma_div_step(b: int, d: int)
    requires
        d > 0,
        b >= 1,
    ensures
        b / d == (b - 1) / d + (if b % d == 0 {
            1int
        } else {
            0int
        }),
{
    vstd::arithmetic::div_mod::lemma_fundamental_div_mod(b, d);
    vstd::arithmetic::div_mod::lemma_mod_bound(b, d);
    let q = b / d;
    let r = b % d;
    if r == 0 {
        assert(b - 1 == (q - 1) * d + (d - 1)) by (nonlinear_arith)
            requires
                b == d * q + r,
                r == 0,
        ;
        vstd::arithmetic::div_mod::lemma_fundamental_div_mod_converse(b - 1, d, q - 1, d - 1);
    } else {
        assert(b - 1 == q * d + (r - 1)) by (nonlinear_arith)
            requires
                b == d * q + r,
        ;
        vstd::arithmetic::div_mod::lemma_fundamental_div_mod_converse(b - 1, d, q, r - 1);
    }
}

/// The closed form of `count_first_attempts`: the hits lie at the
/// offsets congruent to the cycle distance, one per full cycle.
proof fn lemma_count_first_attempts_formula(k0: int, n: int, len: int, i: int)
    requires
        len > 0,
        0 <= i < len,
        n >= 0,
    ensures
        count_first_attempts(k0, n, len, i) == (n + len - 1 - rr_offset(k0, i, len)) / len,
    decreases n,
{
    let off = rr_offset(k0, i, len);
    vstd::arithmetic::div_mod::lemma_mod_bound(i - k0, len);
    if n == 0 {
        assert(len - 1 - off == 0 * len + (len - 1 - off)) by (nonlinear_arith);
        vstd::arithmetic::div_mod::lemma_fundamental_div_mod_converse(
            len - 1 - off,
            len,
            0,
            len - 1 - off,
        );
    } else {
        lemma_count_first_attempts_formula(k0, n - 1, len, i);
        let b = n + len - 1 - off;
        vstd::arithmetic::div_mod::lemma_fundamental_div_mod(i - k0, len);
        vstd::arithmetic::div_mod::lemma_fundamental_div_mod(k0 + n - 1, len);
        vstd::arithmetic::div_mod::lemma_mod_bound(k0 + n - 1, len);
        let qo = (i - k0) / len;
        let qc = (k0 + n - 1) / len;
        let r = (k0 + n - 1) % len;
        if r == i {
            assert(b == (qc + qo + 1) * len + 0) by (nonlinear_arith)
                requires
                    i - k0 == len * qo + off,
                    k0 + n - 1 == len * qc + i,
                    b == n + len - 1 - off,
            ;
            vstd::arithmetic::div_mod::lemma_fundamental_div_mod_converse(b, len, qc + qo + 1, 0);
        } else if r > i {
            assert(b == (qc + qo + 1) * len + (r - i)) by (nonlinear_arith)
                requires
                    i - k0 == len * qo + off,
                    k0 + n - 1 == len * qc + r,
                    b == n + len - 1 - off,
            ;
            vstd::arithmetic::div_mod::lemma_fundamental_div_mod_converse(
                b,
                len,
                qc + qo + 1,
                r - i,
            );
        } else {
            assert(b == (qc + qo) * len + (r - i + len)) by (nonlinear_arith)
                requires
                    i - k0 == len * qo + off,
                    k0 + n - 1 == len * qc + r,
                    b == n + len - 1 - off,
            ;
            vstd::arithmetic::div_mod::lemma_fundamental_div_mod_converse(
                b,
                len,
                qc + qo,
                r - i + len,
            );
        }
        lemma_div_step(b, len);
    }
}

/// Round-robin uniformity: over `n` successive checkouts against
/// `len` sibling pools, every pool receives the first attempt at least
/// `n / len` times and at most `(n + len - 1) / len` times — the floor
/// and the ceiling of `n` over `len`.
pub proof fn lemma_round_robin_uniform(k0: int, n: int, len: int, i: int)
    requires
        len > 0,
        0 <= i < len,
        n >= 0,
    ensures
        n / len <= count_first_attempts(k0, n, len, i) <= (n + len - 1) / len,
{
    lemma_count_first_attempts_formula(k0, n, len, i);
    let off = rr_offset(k0, i, len);
    vstd::arithmetic::div_mod::lemma_mod_bound(i - k0, len);
    vstd::arithmetic::div_mod::lemma_div_is_ordered(n, n + len - 1 - off, len);
    vstd::arithmetic::div_mod::lemma_div_is_ordered(n + len - 1 - off, n + len - 1, len);
}

/// One pool per node, multiplied by the configured multiplier, with
/// round-robin dispatch and failover across the siblings. The checkout
/// deadline configured for the client is handed out with every
/// enqueued checkout.
pub struct PoolPerNode<T: Poolable> {
    inner: Inner<T>,
    checkout_timeout_ms: Option<u64>,
}

impl<T: Poolable> PoolPerNode<T> {
    /// The round-robin heart.
    pub closed spec fn spec_inner(&self) -> Inner<T> {
        self.inner
    }

    /// The default deadline for enqueued checkouts.
    pub closed spec fn spec_checkout_timeout(&self) -> Option<u64> {
        self.checkout_timeout_ms
    }

    pub open spec fn wf(&self) -> bool {
        self.spec_inner().wf()
    }

    /// Sets the pools up from a client configuration.
    pub fn new(config: crate::config::Config) -> (r: InitializationResult<PoolPerNode<T>>)
        ensures
            match r {
                Ok(p) => {
                    &&& config.pool_per_node_multiplier >= 1
                    &&& config.desired_pool_size >= 1
                    &&& p.wf()
                    &&& p.spec_inner().spec_count() == 0
                    &&& p.spec_inner().spec_pools().len() == config.pool_per_node_multiplier
                        * config.connect_to_nodes.len()
                    &&& forall|j: int|
                        0 <= j < p.spec_inner().spec_pools().len() ==> spec_fresh_pool(
                            #[trigger] p.spec_inner().spec_pools()[j],
                            spec_adjusted_pool_config(config),
                        )
                    &&& p.spec_inner().spec_connected_to() == config.connect_to_nodes@
                    &&& p.spec_checkout_timeout() == config.checkout_timeout_ms
                },
                Err(e) => {
                    &&& (config.pool_per_node_multiplier == 0 || config.desired_pool_size == 0)
                    &&& e.spec_message() == Some(
                        if config.pool_per_node_multiplier == 0 {
                            "pool_per_node_multiplier may not be zero"@
                        } else {
                            "'desired_pool_size' must be at least 1"@
                        },
                    )
                },
            },
    {
        let checkout_timeout_ms = config.checkout_timeout_ms;
        match Inner::new(config) {
            Ok(inner) => Ok(PoolPerNode { inner, checkout_timeout_ms }),
            Err(e) => Err(e),
        }
    }

    /// Checks a connection out under the pool's own deadline.
    pub fn check_out(&mut self, now: u64) -> (r: Result<PoolCheckout<T>, CheckoutError>)
        requires
            old(self).wf(),
            old(self).spec_inner().spec_can_enqueue(),
        ensures
            final(self).wf(),
            final(self).spec_checkout_timeout() == old(self).spec_checkout_timeout(),
            multi_check_out_post(
                old(self).spec_inner(),
                final(self).spec_inner(),
                now,
                r,
                old(self).spec_checkout_timeout(),
            ),
    {
        let timeout_ms = self.checkout_timeout_ms;
        self.inner.check_out_explicit_timeout(timeout_ms, now)
    }

    /// Checks a connection out under the given deadline.
    pub fn check_out_explicit_timeout(&mut self, timeout_ms: Option<u64>, now: u64) -> (r: Result<
        PoolCheckout<T>,
        CheckoutError,
    >)
        requires
            old(self).wf(),
            old(self).spec_inner().spec_can_enqueue(),
        ensures
            final(self).wf(),
            final(self).spec_checkout_timeout() == old(self).spec_checkout_timeout(),
            multi_check_out_post(old(self).spec_inner(), final(self).spec_inner(), now, r, timeout_ms),
    {
        self.inner.check_out_explicit_timeout(timeout_ms, now)
    }

    /// Resumes one dispatch's round-robin walk after the wait at its
    /// current attempt failed, trying the siblings from
    /// `start_attempt` on.
    pub fn resume_check_out(
        &mut self,
        cursor: usize,
        start_attempt: usize,
        timeout_ms: Option<u64>,
        now: u64,
    ) -> (r: Result<PoolCheckout<T>, CheckoutError>)
        requires
            old(self).wf(),
            old(self).spec_inner().spec_can_enqueue(),
            old(self).spec_inner().spec_pools().len() > 0,
            cursor < old(self).spec_inner().spec_pools().len(),
        ensures
            final(self).wf(),
            final(self).spec_checkout_timeout() == old(self).spec_checkout_timeout(),
            final(self).spec_inner().spec_count() == old(self).spec_inner().spec_count(),
            multi_dispatch_post(
                old(self).spec_inner(),
                final(self).spec_inner(),
                now,
                r,
                timeout_ms,
                cursor as int,
                start_attempt as int,
            ),
    {
        self.inner.resume_check_out(cursor, start_attempt, timeout_ms, now)
    }

    /// Folds a returned, fresh or dropped connection back into the
    /// pool it came from.
    pub fn check_in(&mut self, pool_index: usize, parcel: CheckInParcel<T>, now: u64) -> (r:
        CheckInOutcome<T>)
        requires
            old(self).wf(),
            pool_index < old(self).spec_inner().spec_pools().len(),
            parcel matches CheckInParcel::Alive(m) ==> m.value is Some && m.checked_out_at is Some
                && !m.marked_for_kill && old(
                self,
            ).spec_inner().spec_pools()[pool_index as int].spec_in_flight() >= 1,
            parcel matches CheckInParcel::Fresh(m) ==> m.value is Some && m.checked_out_at is None
                && !m.marked_for_kill && old(
                self,
            ).spec_inner().spec_pools()[pool_index as int].spec_outstanding_creates() >= 1,
            parcel matches CheckInParcel::Dropped { flight_ms, .. } ==> flight_ms is Some && old(
                self,
            ).spec_inner().spec_pools()[pool_index as int].spec_in_flight() >= 1 && old(
                self,
            ).spec_inner().spec_pools()[pool_index as int].spec_pool_size() >= 1,
        ensures
            final(self).wf(),
            final(self).spec_checkout_timeout() == old(self).spec_checkout_timeout(),
            pools_updated_at(old(self).spec_inner(), final(self).spec_inner(), pool_index as int),
            check_in_post(
                old(self).spec_inner().spec_pools()[pool_index as int],
                final(self).spec_inner().spec_pools()[pool_index as int],
                parcel,
                now,
                r,
            ),
    {
        self.inner.check_in(pool_index, parcel, now)
    }

    /// Abandons the reservation that holds `ticket` on the given pool.
    pub fn cancel_waiter(&mut self, pool_index: usize, ticket: u64) -> (r: Option<u64>)
        requires
            old(self).wf(),
            pool_index < old(self).spec_inner().spec_pools().len(),
        ensures
            final(self).wf(),
            final(self).spec_checkout_timeout() == old(self).spec_checkout_timeout(),
            pools_updated_at(old(self).spec_inner(), final(self).spec_inner(), pool_index as int),
            cancel_post(
                old(self).spec_inner().spec_pools()[pool_index as int],
                final(self).spec_inner().spec_pools()[pool_index as int],
                ticket,
                r,
            ),
    {
        self.inner.cancel_waiter(pool_index, ticket)
    }

    /// Shrinks the given pool by one connection.
    pub fn remove_conn(&mut self, pool_index: usize) -> (r: Option<Managed<T>>)
        requires
            old(self).wf(),
            pool_index < old(self).spec_inner().spec_pools().len(),
        ensures
            final(self).wf(),
            final(self).spec_checkout_timeout() == old(self).spec_checkout_timeout(),
            pools_updated_at(old(self).spec_inner(), final(self).spec_inner(), pool_index as int),
            remove_conn_post(
                old(self).spec_inner().spec_pools()[pool_index as int],
                final(self).spec_inner().spec_pools()[pool_index as int],
                r,
            ),
    {
        self.inner.remove_conn(pool_index)
    }

    /// The number of sibling pools.
    pub fn pool_count(&self) -> (r: usize)
        ensures
            r == self.spec_inner().spec_pools().len(),
    {
        self.inner.pool_count()
    }

    /// Whether every sibling can still enqueue a checkout.
    pub fn can_enqueue(&self) -> (r: bool)
        ensures
            r == self.spec_inner().spec_can_enqueue(),
    {
        self.inner.can_enqueue()
    }

    /// Sampled statistics aggregated over the siblings: each counter as
    /// the least and greatest value over all pools, and the number of
    /// pools.
    pub fn stats(&self) -> (r: PoolStats)
        requires
            self.wf(),
        ensures
            r.node_count == self.spec_inner().spec_pools().len(),
            forall|j: int|
                0 <= j < self.spec_inner().spec_pools().len() ==> {
                    &&& r.pool_size.0 <= (
                    #[trigger] self.spec_inner().spec_pools()[j]).spec_pool_size()
                        <= r.pool_size.1
                    &&& r.in_flight.0 <= self.spec_inner().spec_pools()[j].spec_in_flight()
                        <= r.in_flight.1
                    &&& r.reservations.0 <= self.spec_inner().spec_pools()[j].spec_reservations()
                        <= r.reservations.1
                    &&& r.idle.0 <= self.spec_inner().spec_pools()[j].spec_idle().len() <= r.idle.1
                },
            self.spec_inner().spec_pools().len() > 0 ==> {
                &&& exists|j: int|
                    0 <= j < self.spec_inner().spec_pools().len() && r.pool_size.0 == (
                    #[trigger] self.spec_inner().spec_pools()[j]).spec_pool_size()
                &&& exists|j: int|
                    0 <= j < self.spec_inner().spec_pools().len() && r.pool_size.1 == (
                    #[trigger] self.spec_inner().spec_pools()[j]).spec_pool_size()
                &&& exists|j: int|
                    0 <= j < self.spec_inner().spec_pools().len() && r.in_flight.0 == (
                    #[trigger] self.spec_inner().spec_pools()[j]).spec_in_flight()
                &&& exists|j: int|
                    0 <= j < self.spec_inner().spec_pools().len() && r.in_flight.1 == (
                    #[trigger] self.spec_inner().spec_pools()[j]).spec_in_flight()
                &&& exists|j: int|
                    0 <= j < self.spec_inner().spec_pools().len() && r.reservations.0 == (
                    #[trigger] self.spec_inner().spec_pools()[j]).spec_reservations()
                &&& exists|j: int|
                    0 <= j < self.spec_inner().spec_pools().len() && r.reservations.1 == (
                    #[trigger] self.spec_inner().spec_pools()[j]).spec_reservations()
                &&& exists|j: int|
                    0 <= j < self.spec_inner().spec_pools().len() && r.idle.0 == (
                    #[trigger] self.spec_inner().spec_pools()[j]).spec_idle().len()
                &&& exists|j: int|
                    0 <= j < self.spec_inner().spec_pools().len() && r.idle.1 == (
                    #[trigger] self.spec_inner().spec_pools()[j]).spec_idle().len()
            },
    {
        self.inner.stats()
    }

    /// The URIs of the distinct nodes.
    pub fn connected_to(&self) -> (r: &Vec<String>)
        ensures
            r@ == self.spec_inner().spec_connected_to(),
    {
        self.inner.connected_to()
    }

    /// The node a sibling pool serves: its index in the node list.
    pub fn node_of_pool(&self, pool_index: usize) -> (r: usize)
        requires
            self.spec_inner().spec_connected_to().len() > 0,
        ensures
            r == pool_index as int % self.spec_inner().spec_connected_to().len() as int,
    {
        self.inner.node_of_pool(pool_index)
    }

    /// The exact counters of one sibling pool.
    pub fn pool_state(&self, pool_index: usize) -> (r: crate::pool::PoolState)
        requires
            pool_index < self.spec_inner().spec_pools().len(),
        ensures
            r.pool_size == self.spec_inner().spec_pools()[pool_index as int].spec_pool_size(),
            r.in_flight == self.spec_inner().spec_pools()[pool_index as int].spec_in_flight(),
            r.reservations == self.spec_inner().spec_pools()[pool_index as int].spec_reservations(),
            r.idle == self.spec_inner().spec_pools()[pool_index as int].spec_idle().len(),
            r.outstanding_creates == self.spec_inner().spec_pools()[pool_index as int].spec_outstanding_creates(),
    {
        self.inner.pool_state(pool_index)
    }

    /// Draws one creation request for the given pool.
    pub fn request_new_conn(&mut self, pool_index: usize) -> (msg: NewConnMessage)
        requires
            old(self).wf(),
            pool_index < old(self).spec_inner().spec_pools().len(),
            old(self).spec_inner().spec_pools()[pool_index as int].spec_pool_size() + old(
                self,
            ).spec_inner().spec_pools()[pool_index as int].spec_outstanding_creates() < old(
                self,
            ).spec_inner().spec_pools()[pool_index as int].spec_config().desired_pool_size,
        ensures
            final(self).wf(),
            final(self).spec_checkout_timeout() == old(self).spec_checkout_timeout(),
            pools_updated_at(old(self).spec_inner(), final(self).spec_inner(), pool_index as int),
            msg == NewConnMessage::RequestNewConn,
            final(self).spec_inner().spec_pools()[pool_index as int].spec_outstanding_creates()
                == old(self).spec_inner().spec_pools()[pool_index as int].spec_outstanding_creates()
                + 1,
            final(self).spec_inner().spec_pools()[pool_index as int].spec_idle() == old(
                self,
            ).spec_inner().spec_pools()[pool_index as int].spec_idle(),
            final(self).spec_inner().spec_pools()[pool_index as int].spec_waiting() == old(
                self,
            ).spec_inner().spec_pools()[pool_index as int].spec_waiting(),
            final(self).spec_inner().spec_pools()[pool_index as int].spec_pool_size() == old(
                self,
            ).spec_inner().spec_pools()[pool_index as int].spec_pool_size(),
            final(self).spec_inner().spec_pools()[pool_index as int].spec_in_flight() == old(
                self,
            ).spec_inner().spec_pools()[pool_index as int].spec_in_flight(),
            final(self).spec_inner().spec_pools()[pool_index as int].spec_config() == old(
                self,
            ).spec_inner().spec_pools()[pool_index as int].spec_config(),
    {
        self.inner.request_new_conn(pool_index)
    }
}

} // verus!
