use vstd::prelude::*;

use std::collections::VecDeque;

use crate::activation_order::ActivationOrder;
use crate::error::{CheckoutError, CheckoutErrorKind};
use crate::pool::{spec_elapsed, CheckInParcel, Config, Managed, NewConnMessage, PoolState};
use crate::Poolable;

verus! {

/// One entry of the waiter queue.
#[derive(Debug, Clone, Copy, PartialEq, Eq, Structural)]
pub enum Waiting {
    /// A caller waiting for a connection: the ticket under which it
    /// can be cancelled and the clock reading at which it enqueued.
    Checkout { ticket: u64, waiting_since: u64 },
    /// A sentinel that consumes the next returned connection and kills
    /// it, shrinking the pool without racing against live checkouts.
    ReducePoolSize,
}

impl Waiting {
    pub fn checkout(ticket: u64, now: u64) -> (r: Self)
        ensures
            r == (Waiting::Checkout { ticket, waiting_since: now }),
    {
        Waiting::Checkout { ticket, waiting_since: now }
    }

    pub fn reduce_pool_size() -> (r: Self)
        ensures
            r == Waiting::ReducePoolSize,
    {
        Waiting::ReducePoolSize
    }
}

/// The ticket of a waiting checkout; zero for a sentinel.
pub open spec fn ticket_of(w: Waiting) -> u64 {
    match w {
        Waiting::Checkout { ticket, .. } => ticket,
        Waiting::ReducePoolSize => 0,
    }
}

/// When a waiting checkout enqueued; zero for a sentinel.
pub open spec fn since_of(w: Waiting) -> u64 {
    match w {
        Waiting::Checkout { waiting_since, .. } => waiting_since,
        Waiting::ReducePoolSize => 0,
    }
}

/// How many entries of the queue are waiting checkouts; sentinels do
/// not count as reservations.
pub open spec fn reservation_count(q: Seq<Waiting>) -> nat
    decreases q.len(),
{
    if q.len() == 0 {
        0
    } else {
        (if q[0] is Checkout {
            1nat
        } else {
            0nat
        }) + reservation_count(q.drop_first())
    }
}

/// Appending an entry raises the reservation count by one exactly when
/// the entry is a waiting checkout.
pub proof fn lemma_reservation_count_push(q: Seq<Waiting>, w: Waiting)
    ensures
        reservation_count(q.push(w)) == reservation_count(q) + (if w is Checkout {
            1nat
        } else {
            0nat
        }),
    decreases q.len(),
{
    if q.len() == 0 {
        assert(q.push(w)[0] == w);
        assert(q.push(w).drop_first() =~= Seq::<Waiting>::empty());
        assert(reservation_count(Seq::<Waiting>::empty()) == 0);
    } else {
        lemma_reservation_count_push(q.drop_first(), w);
        assert(q.push(w)[0] == q[0]);
        assert(q.push(w).drop_first() =~= q.drop_first().push(w));
    }
}

/// Removing an entry lowers the reservation count by one exactly when
/// the entry is a waiting checkout.
pub proof fn lemma_reservation_count_remove(q: Seq<Waiting>, i: int)
    requires
        0 <= i < q.len(),
    ensures
        reservation_count(q.remove(i)) == reservation_count(q) - (if q[i] is Checkout {
            1nat
        } else {
            0nat
        }),
    decreases q.len(),
{
    if i == 0 {
        assert(q.remove(0) =~= q.drop_first());
    } else {
        lemma_reservation_count_remove(q.drop_first(), i - 1);
        assert(q.remove(i).drop_first() =~= q.drop_first().remove(i - 1));
        assert(q.remove(i)[0] == q[0]);
    }
}

/// There are never more waiting checkouts than queue entries.
pub proof fn lemma_reservation_count_le_len(q: Seq<Waiting>)
    ensures
        reservation_count(q) <= q.len(),
    decreases q.len(),
{
    if q.len() > 0 {
        lemma_reservation_count_le_len(q.drop_first());
    }
}

/// Waiting checkouts hold strictly growing tickets along the queue.
pub open spec fn tickets_increasing(q: Seq<Waiting>) -> bool {
    forall|i: int, j: int|
        #![trigger q[i], q[j]]
        0 <= i < j < q.len() && q[i] is Checkout && q[j] is Checkout ==> ticket_of(q[i])
            < ticket_of(q[j])
}

/// Every ticket in the queue was drawn before `next`.
pub open spec fn tickets_bounded(q: Seq<Waiting>, next: u64) -> bool {
    forall|i: int| #![trigger q[i]] 0 <= i < q.len() && q[i] is Checkout ==> ticket_of(q[i]) < next
}

/// Idle handles hold a live connection, are not checked out and are
/// not marked for kill.
pub open spec fn idle_handles_ok<T: Poolable>(s: Seq<Managed<T>>) -> bool {
    forall|i: int|
        #![trigger s[i]]
        0 <= i < s.len() ==> s[i].value is Some && s[i].checked_out_at is None
            && !s[i].marked_for_kill
}

/// What a checkout brought back.
pub enum CheckOutReply<T: Poolable> {
    /// An idle connection was available at once.
    Granted(Managed<T>),
    /// No idle connection: the caller was enqueued under this ticket
    /// and receives its handle through a later `check_in`, or gives up
    /// with `cancel_waiter`.
    Enqueued { ticket: u64 },
}

/// What `check_in` decided about one parcel.
pub enum CheckInOutcome<T: Poolable> {
    /// The handle goes to the waiter that holds `ticket`, which waited
    /// `waited_ms`: deliver `handle` to it.
    Fulfilled { ticket: u64, waited_ms: u64, handle: Managed<T> },
    /// Nobody was waiting: the handle joined the idle container.
    ToIdle,
    /// A shrink sentinel consumed the handle: the pool shrank, and the
    /// connection in `handle` is only dropped, after `lifetime_ms` of
    /// life, as a killed connection.
    SentinelKill { handle: Managed<T>, lifetime_ms: u64 },
    /// A defective connection left the pool: send `request` to the
    /// creation stream so the steady-state size is restored.
    Restock { request: NewConnMessage },
}

/// What one fold of a handle into the pool must look like. `o` and `f`
/// are the pool before and after; `base_*` are the counters after the
/// parcel's own bookkeeping but before the fold.
pub open spec fn spec_fold<T: Poolable>(
    o: InnerPool<T>,
    f: InnerPool<T>,
    m: Managed<T>,
    r: CheckInOutcome<T>,
    now: u64,
    base_in_flight: int,
    base_pool_size: int,
    base_outstanding: int,
) -> bool {
    if o.spec_waiting().len() == 0 {
        &&& r == CheckInOutcome::<T>::ToIdle
        &&& f.spec_idle() == o.spec_idle().push(
            Managed { checked_out_at: None::<u64>, ..m },
        )
        &&& f.spec_waiting() == o.spec_waiting()
        &&& f.spec_in_flight() == base_in_flight
        &&& f.spec_pool_size() == base_pool_size
        &&& f.spec_outstanding_creates() == base_outstanding
    } else if o.spec_waiting()[0] is Checkout {
        &&& r == (CheckInOutcome::Fulfilled {
            ticket: ticket_of(o.spec_waiting()[0]),
            waited_ms: spec_elapsed(now, since_of(o.spec_waiting()[0])),
            handle: (Managed { checked_out_at: Some(now), ..m }),
        })
        &&& f.spec_idle() == o.spec_idle()
        &&& f.spec_waiting() == o.spec_waiting().drop_first()
        &&& f.spec_in_flight() == base_in_flight + 1
        &&& f.spec_pool_size() == base_pool_size
        &&& f.spec_outstanding_creates() == base_outstanding
    } else {
        &&& r == (CheckInOutcome::SentinelKill {
            handle: (Managed { checked_out_at: None::<u64>, marked_for_kill: true, ..m }),
            lifetime_ms: spec_elapsed(now, m.created_at),
        })
        &&& f.spec_idle() == o.spec_idle()
        &&& f.spec_waiting() == o.spec_waiting().drop_first()
        &&& f.spec_in_flight() == base_in_flight
        &&& f.spec_pool_size() == base_pool_size - 1
        &&& f.spec_outstanding_creates() == base_outstanding
    }
}

/// What one checkout must look like: `o` and `f` are the pool before
/// and after. An idle connection is granted at once, drained per the
/// activation order; otherwise the caller is enqueued under a fresh
/// ticket, unless the reservation limit is reached, which fails the
/// checkout at once and leaves the pool untouched.
pub open spec fn check_out_post<T: Poolable>(
    o: InnerPool<T>,
    f: InnerPool<T>,
    now: u64,
    r: Result<CheckOutReply<T>, CheckoutError>,
) -> bool {
    &&& f.spec_config() == o.spec_config()
    &&& f.spec_pool_size() == o.spec_pool_size()
    &&& f.spec_outstanding_creates() == o.spec_outstanding_creates()
    &&& match r {
        Ok(CheckOutReply::Granted(m)) => {
            &&& o.spec_idle().len() > 0
            &&& f.spec_in_flight() == o.spec_in_flight() + 1
            &&& f.spec_waiting() == o.spec_waiting()
            &&& f.spec_next_ticket() == o.spec_next_ticket()
            &&& (match o.spec_config().activation_order {
                ActivationOrder::LiFo => {
                    &&& m == (Managed { checked_out_at: Some(now), ..o.spec_idle().last() })
                    &&& f.spec_idle() == o.spec_idle().drop_last()
                },
                ActivationOrder::FiFo => {
                    &&& m == (Managed { checked_out_at: Some(now), ..o.spec_idle().first() })
                    &&& f.spec_idle() == o.spec_idle().drop_first()
                },
            })
        },
        Ok(CheckOutReply::Enqueued { ticket }) => {
            &&& o.spec_idle().len() == 0
            &&& (match o.spec_config().reservation_limit {
                Some(limit) => reservation_count(o.spec_waiting()) < limit,
                None => true,
            })
            &&& ticket == o.spec_next_ticket()
            &&& f.spec_next_ticket() == o.spec_next_ticket() + 1
            &&& f.spec_waiting() == o.spec_waiting().push(
                Waiting::Checkout { ticket, waiting_since: now },
            )
            &&& f.spec_idle() == o.spec_idle()
            &&& f.spec_in_flight() == o.spec_in_flight()
        },
        Err(e) => {
            &&& e.spec_kind() == CheckoutErrorKind::ReservationLimitReached
            &&& o.spec_idle().len() == 0
            &&& (match o.spec_config().reservation_limit {
                Some(limit) => reservation_count(o.spec_waiting()) >= limit,
                None => false,
            })
            &&& f == o
        },
    }
}

/// What one check-in must look like: `o` and `f` are the pool before
/// and after.
pub open spec fn check_in_post<T: Poolable>(
    o: InnerPool<T>,
    f: InnerPool<T>,
    parcel: CheckInParcel<T>,
    now: u64,
    r: CheckInOutcome<T>,
) -> bool {
    &&& f.spec_config() == o.spec_config()
    &&& f.spec_next_ticket() == o.spec_next_ticket()
    &&& match parcel {
        CheckInParcel::Alive(m) => spec_fold(
            o,
            f,
            m,
            r,
            now,
            o.spec_in_flight() - 1,
            o.spec_pool_size(),
            o.spec_outstanding_creates(),
        ),
        CheckInParcel::Fresh(m) => spec_fold(
            o,
            f,
            m,
            r,
            now,
            o.spec_in_flight(),
            o.spec_pool_size() + 1,
            o.spec_outstanding_creates() - 1,
        ),
        CheckInParcel::Dropped { .. } => {
            &&& r == (CheckInOutcome::<T>::Restock { request: NewConnMessage::RequestNewConn })
            &&& f.spec_idle() == o.spec_idle()
            &&& f.spec_waiting() == o.spec_waiting()
            &&& f.spec_pool_size() == o.spec_pool_size() - 1
            &&& f.spec_in_flight() == o.spec_in_flight() - 1
            &&& f.spec_outstanding_creates() == o.spec_outstanding_creates() + 1
        },
    }
}

/// What abandoning one reservation must look like: the matching entry
/// leaves the queue and nothing else moves.
pub open spec fn cancel_post<T: Poolable>(
    o: InnerPool<T>,
    f: InnerPool<T>,
    ticket: u64,
    r: Option<u64>,
) -> bool {
    &&& f.spec_config() == o.spec_config()
    &&& f.spec_idle() == o.spec_idle()
    &&& f.spec_pool_size() == o.spec_pool_size()
    &&& f.spec_in_flight() == o.spec_in_flight()
    &&& f.spec_outstanding_creates() == o.spec_outstanding_creates()
    &&& f.spec_next_ticket() == o.spec_next_ticket()
    &&& match r {
        Some(since) => exists|i: int|
            {
                &&& 0 <= i < o.spec_waiting().len()
                &&& o.spec_waiting()[i] == (Waiting::Checkout { ticket, waiting_since: since })
                &&& f.spec_waiting() == o.spec_waiting().remove(i)
            },
        None => {
            &&& f.spec_waiting() == o.spec_waiting()
            &&& forall|i: int|
                #![trigger o.spec_waiting()[i]]
                0 <= i < o.spec_waiting().len() && o.spec_waiting()[i] is Checkout ==> ticket_of(
                    o.spec_waiting()[i],
                ) != ticket
        },
    }
}

/// What one voluntary shrink must look like: an idle connection is
/// killed at once, or a sentinel joins the queue.
pub open spec fn remove_conn_post<T: Poolable>(
    o: InnerPool<T>,
    f: InnerPool<T>,
    r: Option<Managed<T>>,
) -> bool {
    &&& f.spec_config() == o.spec_config()
    &&& f.spec_in_flight() == o.spec_in_flight()
    &&& f.spec_outstanding_creates() == o.spec_outstanding_creates()
    &&& f.spec_next_ticket() == o.spec_next_ticket()
    &&& match r {
        Some(m) => {
            &&& o.spec_idle().len() > 0
            &&& m == (Managed { marked_for_kill: true, ..o.spec_idle().last() })
            &&& f.spec_idle() == o.spec_idle().drop_last()
            &&& f.spec_waiting() == o.spec_waiting()
            &&& f.spec_pool_size() == o.spec_pool_size() - 1
        },
        None => {
            &&& o.spec_idle().len() == 0
            &&& f.spec_idle() == o.spec_idle()
            &&& f.spec_waiting() == o.spec_waiting().push(Waiting::ReducePoolSize)
            &&& f.spec_pool_size() == o.spec_pool_size()
        },
    }
}

/// The arbitration core of one pool: the idle container, the FIFO
/// queue of waiters, and the size counters. Every operation is a step
/// of a state machine: it takes the current time, makes its decision
/// under the caller's lock, and returns what the caller must carry out
/// outside of it (deliver a handle, drop a connection, send a creation
/// request).
pub struct InnerPool<T: Poolable> {
    idle: Vec<Managed<T>>,
    waiting: VecDeque<Waiting>,
    waiting_checkouts: usize,
    pool_size: usize,
    in_flight: usize,
    outstanding_creates: usize,
    next_ticket: u64,
    config: Config,
}

impl<T: Poolable> InnerPool<T> {
    /// The idle connections, oldest first.
    pub closed spec fn spec_idle(&self) -> Seq<Managed<T>> {
        self.idle@
    }

    /// The waiter queue, front first.
    pub closed spec fn spec_waiting(&self) -> Seq<Waiting> {
        self.waiting@
    }

    /// The number of connections the pool accounts for.
    pub closed spec fn spec_pool_size(&self) -> int {
        self.pool_size as int
    }

    /// The number of connections currently checked out.
    pub closed spec fn spec_in_flight(&self) -> int {
        self.in_flight as int
    }

    /// The number of creation requests not yet answered by a fresh
    /// connection.
    pub closed spec fn spec_outstanding_creates(&self) -> int {
        self.outstanding_creates as int
    }

    /// The ticket the next enqueued checkout will draw.
    pub closed spec fn spec_next_ticket(&self) -> u64 {
        self.next_ticket
    }

    /// The pool's configuration.
    pub closed spec fn spec_config(&self) -> Config {
        self.config
    }

    /// The invariants that hold between operations: conservation (the
    /// idle and in-flight connections are exactly the pool size), the
    /// pool never overshoots its desired size counting outstanding
    /// creations, the reservation limit bounds the waiting checkouts,
    /// tickets grow along the queue and stay below the next ticket,
    /// idle handles are sound, and nobody waits while a connection
    /// sits idle.
    pub open spec fn wf(&self) -> bool {
        &&& self.spec_idle().len() + self.spec_in_flight() == self.spec_pool_size()
        &&& self.spec_pool_size() + self.spec_outstanding_creates()
            <= self.spec_config().desired_pool_size
        &&& self.spec_config().wf()
        &&& self.spec_reservations() == reservation_count(self.spec_waiting())
        &&& (match self.spec_config().reservation_limit {
            Some(limit) => reservation_count(self.spec_waiting()) <= limit,
            None => true,
        })
        &&& tickets_increasing(self.spec_waiting())
        &&& tickets_bounded(self.spec_waiting(), self.spec_next_ticket())
        &&& idle_handles_ok(self.spec_idle())
        &&& (self.spec_idle().len() > 0 ==> self.spec_waiting().len() == 0)
    }

    /// The number of waiting checkouts, kept beside the queue so the
    /// reservation limit can be tested in constant time.
    pub closed spec fn spec_reservations(&self) -> int {
        self.waiting_checkouts as int
    }

    /// Whether another checkout can still be enqueued: the ticket
    /// counter and the queue have room. These are machine limits; a
    /// pool can never wear them out in practice.
    pub open spec fn spec_can_enqueue(&self) -> bool {
        &&& self.spec_next_ticket() < u64::MAX
        &&& self.spec_waiting().len() < usize::MAX
    }

    /// A fresh pool: empty, with nothing requested yet.
    pub fn new(config: Config) -> (r: Self)
        requires
            config.wf(),
        ensures
            r.wf(),
            r.spec_idle() == Seq::<Managed<T>>::empty(),
            r.spec_waiting() == Seq::<Waiting>::empty(),
            r.spec_pool_size() == 0,
            r.spec_in_flight() == 0,
            r.spec_outstanding_creates() == 0,
            r.spec_next_ticket() == 0,
            r.spec_config() == config,
    {
        InnerPool {
            idle: Vec::new(),
            waiting: VecDeque::new(),
            waiting_checkouts: 0,
            pool_size: 0,
            in_flight: 0,
            outstanding_creates: 0,
            next_ticket: 0,
            config,
        }
    }

    /// Draws one creation request. The caller sends the returned
    /// message to the pool's creation stream. Requests are only drawn
    /// while the pool, counting answers still under way, is below its
    /// desired size.
    pub fn request_new_conn(&mut self) -> (msg: NewConnMessage)
        requires
            old(self).wf(),
            old(self).spec_pool_size() + old(self).spec_outstanding_creates() < old(
                self,
            ).spec_config().desired_pool_size,
        ensures
            final(self).wf(),
            msg == NewConnMessage::RequestNewConn,
            final(self).spec_outstanding_creates() == old(self).spec_outstanding_creates() + 1,
            final(self).spec_idle() == old(self).spec_idle(),
            final(self).spec_waiting() == old(self).spec_waiting(),
            final(self).spec_pool_size() == old(self).spec_pool_size(),
            final(self).spec_in_flight() == old(self).spec_in_flight(),
            final(self).spec_next_ticket() == old(self).spec_next_ticket(),
            final(self).spec_config() == old(self).spec_config(),
    {
        self.outstanding_creates = self.outstanding_creates + 1;
        NewConnMessage::RequestNewConn
    }

    /// Checks one connection out. When an idle connection is there it
    /// is granted at once, drained per the activation order. Otherwise
    /// the caller is enqueued, unless the reservation limit is reached,
    /// which fails the checkout at once.
    pub fn check_out(&mut self, now: u64) -> (r: Result<CheckOutReply<T>, CheckoutError>)
        requires
            old(self).wf(),
            old(self).spec_can_enqueue(),
        ensures
            final(self).wf(),
            check_out_post(*old(self), *final(self), now, r),
    {
        if self.idle.len() > 0 {
            let mut m = match self.config.activation_order {
                ActivationOrder::LiFo => self.idle.pop().unwrap(),
                ActivationOrder::FiFo => self.idle.remove(0),
            };
            proof {
                if self.config.activation_order is LiFo {
                    assert(self.idle@ =~= old(self).spec_idle().drop_last());
                } else {
                    assert(self.idle@ =~= old(self).spec_idle().drop_first());
                }
            }
            m.checked_out_at = Some(now);
            self.in_flight = self.in_flight + 1;
            Ok(CheckOutReply::Granted(m))
        } else {
            let at_limit = match self.config.reservation_limit {
                Some(limit) => self.waiting_checkouts >= limit,
                None => false,
            };
            if at_limit {
                Err(CheckoutError::new(CheckoutErrorKind::ReservationLimitReached))
            } else {
                let ticket = self.next_ticket;
                self.next_ticket = self.next_ticket + 1;
                let entry = Waiting::Checkout { ticket, waiting_since: now };
                proof {
                    lemma_reservation_count_push(self.waiting@, entry);
                    lemma_reservation_count_le_len(self.waiting@);
                }
                self.waiting.push_back(entry);
                self.waiting_checkouts = self.waiting_checkouts + 1;
                proof {
                    let q = old(self).spec_waiting();
                    let qn = self.waiting@;
                    assert forall|i: int, j: int|
                        0 <= i < j < qn.len() && #[trigger] qn[i] is Checkout && #[trigger] qn[j] is Checkout implies ticket_of(
                        qn[i],
                    ) < ticket_of(qn[j]) by {
                        if j < q.len() {
                            assert(qn[i] == q[i] && qn[j] == q[j]);
                        } else {
                            assert(qn[j] == entry);
                            assert(qn[i] == q[i]);
                        }
                    }
                }
                Ok(CheckOutReply::Enqueued { ticket })
            }
        }
    }

    /// Folds a returned, fresh or dropped connection back into the
    /// pool. A handle is never lost: it is handed to the front waiter,
    /// joins the idle container, is consumed by a shrink sentinel, or,
    /// for a dropped connection, a creation request restores the pool.
    /// Should delivering the handle to the returned ticket fail
    /// because that caller is gone, the caller of this function checks
    /// the handle in again.
    ///
    /// A dropped parcel always reports its flight time: connections
    /// are discarded as defective only out of a caller's hands, so
    /// they count as in flight. A dropped parcel with no flight time
    /// would shrink the pool without freeing an in-flight slot, and
    /// conservation — idle plus in flight equals the pool size, which
    /// holds between any two operations — could not survive it.
    pub fn check_in(&mut self, parcel: CheckInParcel<T>, now: u64) -> (r: CheckInOutcome<T>)
        requires
            old(self).wf(),
            parcel matches CheckInParcel::Alive(m) ==> m.value is Some && m.checked_out_at is Some
                && !m.marked_for_kill && old(self).spec_in_flight() >= 1,
            parcel matches CheckInParcel::Fresh(m) ==> m.value is Some && m.checked_out_at is None
                && !m.marked_for_kill && old(self).spec_outstanding_creates() >= 1,
            parcel matches CheckInParcel::Dropped { flight_ms, .. } ==> flight_ms is Some && old(
                self,
            ).spec_in_flight() >= 1 && old(self).spec_pool_size() >= 1,
        ensures
            final(self).wf(),
            check_in_post(*old(self), *final(self), parcel, now, r),
    {
        let managed = match parcel {
            CheckInParcel::Alive(m) => {
                self.in_flight = self.in_flight - 1;
                m
            },
            CheckInParcel::Fresh(m) => {
                self.pool_size = self.pool_size + 1;
                self.outstanding_creates = self.outstanding_creates - 1;
                m
            },
            CheckInParcel::Dropped { .. } => {
                self.pool_size = self.pool_size - 1;
                self.in_flight = self.in_flight - 1;
                self.outstanding_creates = self.outstanding_creates + 1;
                return CheckInOutcome::Restock { request: NewConnMessage::RequestNewConn };
            },
        };
        let mut managed = managed;
        if self.waiting.len() == 0 {
            managed.checked_out_at = None;
            self.idle.push(managed);
            proof {
                let s = self.idle@;
                assert forall|i: int| 0 <= i < s.len() implies #[trigger] s[i].value is Some
                    && s[i].checked_out_at is None && !s[i].marked_for_kill by {
                    if i < s.len() - 1 {
                        assert(s[i] == old(self).spec_idle()[i]);
                    }
                }
            }
            CheckInOutcome::ToIdle
        } else {
            let front = self.waiting.pop_front().unwrap();
            match front {
                Waiting::Checkout { ticket, waiting_since } => {
                    managed.checked_out_at = Some(now);
                    self.in_flight = self.in_flight + 1;
                    self.waiting_checkouts = self.waiting_checkouts - 1;
                    let waited_ms = crate::pool::elapsed_ms(now, waiting_since);
                    CheckInOutcome::Fulfilled { ticket, waited_ms, handle: managed }
                },
                Waiting::ReducePoolSize => {
                    managed.checked_out_at = None;
                    managed.marked_for_kill = true;
                    self.pool_size = self.pool_size - 1;
                    let lifetime_ms = crate::pool::elapsed_ms(now, managed.created_at);
                    CheckInOutcome::SentinelKill { handle: managed, lifetime_ms }
                },
            }
        }
    }

    /// Abandons the reservation that holds `ticket`, reporting for how
    /// long it had been waiting; the pool is untouched when the ticket
    /// is not in the queue. This is how a caller that timed out or
    /// lost interest leaves, so that no later handle is wasted on it.
    pub fn cancel_waiter(&mut self, ticket: u64) -> (r: Option<u64>)
        requires
            old(self).wf(),
        ensures
            final(self).wf(),
            cancel_post(*old(self), *final(self), ticket, r),
    {
        let len = self.waiting.len();
        let mut i: usize = 0;
        while i < len
            invariant
                old(self).wf(),
                *self == *old(self),
                len == self.waiting@.len(),
                0 <= i <= len,
                forall|j: int|
                    #![trigger self.waiting@[j]]
                    0 <= j < i && self.waiting@[j] is Checkout ==> ticket_of(self.waiting@[j])
                        != ticket,
            decreases len - i,
        {
            let found = match *(&self.waiting[i]) {
                Waiting::Checkout { ticket: t, .. } => t == ticket,
                Waiting::ReducePoolSize => false,
            };
            if found {
                let ghost q = self.waiting@;
                let removed = self.waiting.remove(i).unwrap();
                let since = match removed {
                    Waiting::Checkout { waiting_since, .. } => waiting_since,
                    Waiting::ReducePoolSize => 0,
                };
                proof {
                    lemma_reservation_count_remove(q, i as int);
                    q.remove_ensures(i as int);
                    let qn = self.waiting@;
                    assert(q == old(self).spec_waiting());
                    assert(tickets_increasing(q) && tickets_bounded(q, self.next_ticket));
                    assert(qn == q.remove(i as int));
                    assert(q[i as int] is Checkout);
                    assert forall|a: int, b: int|
                        0 <= a < b < qn.len() && #[trigger] qn[a] is Checkout
                            && #[trigger] qn[b] is Checkout implies ticket_of(qn[a]) < ticket_of(
                        qn[b],
                    ) by {
                        let a0 = if a < i { a } else { a + 1 };
                        let b0 = if b < i { b } else { b + 1 };
                        assert(qn[a] == q[a0] && qn[b] == q[b0]);
                    }
                    assert forall|a: int| 0 <= a < qn.len() && #[trigger] qn[a] is Checkout
                        implies ticket_of(qn[a]) < self.next_ticket by {
                        let a0 = if a < i { a } else { a + 1 };
                        assert(qn[a] == q[a0]);
                    }
                }
                self.waiting_checkouts = self.waiting_checkouts - 1;
                return Some(since);
            }
            i = i + 1;
        }
        None
    }

    /// Shrinks the pool by one connection: an idle connection is
    /// killed at once and returned, marked, for the caller to drop;
    /// with every connection in flight a sentinel waits for the next
    /// returned one instead.
    pub fn remove_conn(&mut self) -> (r: Option<Managed<T>>)
        requires
            old(self).wf(),
        ensures
            final(self).wf(),
            remove_conn_post(*old(self), *final(self), r),
    {
        match self.idle.pop() {
            Some(mut m) => {
                m.marked_for_kill = true;
                self.pool_size = self.pool_size - 1;
                proof {
                    assert(self.idle@ =~= old(self).spec_idle().drop_last());
                }
                Some(m)
            },
            None => {
                proof {
                    lemma_reservation_count_push(self.waiting@, Waiting::ReducePoolSize);
                    let q = old(self).spec_waiting();
                    let qn = q.push(Waiting::ReducePoolSize);
                    assert forall|a: int, b: int|
                        0 <= a < b < qn.len() && #[trigger] qn[a] is Checkout
                            && #[trigger] qn[b] is Checkout implies ticket_of(qn[a]) < ticket_of(
                        qn[b],
                    ) by {
                        assert(qn[b] == q[b]);
                        assert(qn[a] == q[a]);
                    }
                }
                self.waiting.push_back(Waiting::ReducePoolSize);
                None
            },
        }
    }

    /// Sampled statistics: each counter as a one-point interval.
    pub fn stats(&self) -> (r: crate::pool::PoolStats)
        requires
            self.wf(),
        ensures
            r.pool_size.0 == self.spec_pool_size() && r.pool_size.1 == self.spec_pool_size(),
            r.in_flight.0 == self.spec_in_flight() && r.in_flight.1 == self.spec_in_flight(),
            r.reservations.0 == self.spec_reservations() && r.reservations.1
                == self.spec_reservations(),
            r.idle.0 == self.spec_idle().len() && r.idle.1 == self.spec_idle().len(),
            r.node_count == 1,
    {
        crate::pool::PoolStats {
            pool_size: crate::pool::MinMax(self.pool_size, self.pool_size),
            in_flight: crate::pool::MinMax(self.in_flight, self.in_flight),
            reservations: crate::pool::MinMax(self.waiting_checkouts, self.waiting_checkouts),
            idle: crate::pool::MinMax(self.idle.len(), self.idle.len()),
            node_count: 1,
        }
    }

    /// Whether another checkout can still be enqueued; callers test
    /// this before a checkout.
    pub fn can_enqueue(&self) -> (r: bool)
        ensures
            r == self.spec_can_enqueue(),
    {
        self.next_ticket < u64::MAX && self.waiting.len() < usize::MAX
    }

    /// The configuration the pool runs under.
    pub fn config(&self) -> (r: &Config)
        ensures
            *r == self.spec_config(),
    {
        &self.config
    }

    /// The exact counters, as they stand.
    pub fn state(&self) -> (r: PoolState)
        ensures
            r.pool_size == self.spec_pool_size(),
            r.in_flight == self.spec_in_flight(),
            r.reservations == self.spec_reservations(),
            r.idle == self.spec_idle().len(),
            r.outstanding_creates == self.spec_outstanding_creates(),
    {
        PoolState {
            pool_size: self.pool_size,
            in_flight: self.in_flight,
            reservations: self.waiting_checkouts,
            idle: self.idle.len(),
            outstanding_creates: self.outstanding_creates,
        }
    }
}

/// Conservation: between operations, the idle and in-flight
/// connections account exactly for the pool size.
pub proof fn lemma_conservation<T: Poolable>(pool: &InnerPool<T>)
    requires
        pool.wf(),
    ensures
        pool.spec_idle().len() + pool.spec_in_flight() == pool.spec_pool_size(),
{
}

/// The reservation cap: when a limit is set, the waiting checkouts
/// never exceed it.
pub proof fn lemma_reservation_cap<T: Poolable>(pool: &InnerPool<T>, limit: usize)
    requires
        pool.wf(),
        pool.spec_config().reservation_limit == Some(limit),
    ensures
        reservation_count(pool.spec_waiting()) <= limit,
{
}

/// No lost handles: a live or fresh connection folded into the pool
/// ends exactly one way — handed to the waiter named in the outcome,
/// added to the idle container, or consumed by a shrink sentinel and
/// handed back marked for kill, which the caller reports as a killed
/// connection. It is never silently dropped.
pub proof fn lemma_no_lost_handles<T: Poolable>(
    o: InnerPool<T>,
    f: InnerPool<T>,
    parcel: CheckInParcel<T>,
    now: u64,
    r: CheckInOutcome<T>,
)
    requires
        check_in_post(o, f, parcel, now, r),
        parcel matches CheckInParcel::Alive(_) || parcel matches CheckInParcel::Fresh(_),
    ensures
        match parcel {
            CheckInParcel::Alive(m) | CheckInParcel::Fresh(m) => {
                ||| (r matches CheckInOutcome::Fulfilled { handle, .. } && handle.value == m.value)
                ||| (r is ToIdle && f.spec_idle().len() == o.spec_idle().len() + 1
                    && f.spec_idle().last().value == m.value)
                ||| (r matches CheckInOutcome::SentinelKill { handle, .. } && handle.value
                    == m.value && handle.marked_for_kill)
            },
            CheckInParcel::Dropped { .. } => true,
        },
{
    match parcel {
        CheckInParcel::Alive(m) | CheckInParcel::Fresh(m) => {
            if o.spec_waiting().len() == 0 {
                assert(f.spec_idle().last() == (Managed { checked_out_at: None::<u64>, ..m }));
            }
        },
        CheckInParcel::Dropped { .. } => {},
    }
}

/// FIFO fairness: a checkout enqueued earlier stands closer to the
/// front of the queue and holds the smaller ticket, and `check_in`
/// always serves the front entry, so of two waiters that both receive
/// a handle the earlier-enqueued one receives first.
pub proof fn lemma_waiting_fifo_order<T: Poolable>(pool: &InnerPool<T>, i: int, j: int)
    requires
        pool.wf(),
        0 <= i < j < pool.spec_waiting().len(),
        pool.spec_waiting()[i] is Checkout,
        pool.spec_waiting()[j] is Checkout,
    ensures
        ticket_of(pool.spec_waiting()[i]) < ticket_of(pool.spec_waiting()[j]),
{
}

} // verus!
