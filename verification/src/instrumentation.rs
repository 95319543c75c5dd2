//! Pluggable instrumentation.
use vstd::prelude::*;

verus! {

/// A sink for the events the pool emits, each fire-and-forget. The
/// caller that drives the pool calls these as the outcomes of the pool
/// operations tell it to; durations are in milliseconds. For a client
/// with several pools the `min` and `max` pairs aggregate over the
/// sibling pools.
pub trait Instrumentation {
    /// A connection was checked out.
    fn checked_out_connection(&self);

    /// A connection that was previously checked out was checked in
    /// again.
    fn checked_in_returned_connection(&self, flight_time_ms: u64);

    /// A newly created connection was checked in.
    fn checked_in_new_connection(&self);

    /// A connection was dropped because it was marked as defect.
    fn connection_dropped(&self, flight_time_ms: u64, lifetime_ms: u64);

    /// The number of idle connections changed.
    fn idle_connections_changed(&self, min: usize, max: usize);

    /// A new connection was created.
    fn connection_created(&self, connected_after_ms: u64, total_time_ms: u64);

    /// A connection was intentionally killed, as connections are when
    /// the pool shrinks.
    fn killed_connection(&self, lifetime_ms: u64);

    /// The number of reservations in the reservation queue changed.
    /// `limit` is the configured cap on the queue.
    fn reservations_changed(&self, min: usize, max: usize, limit: Option<usize>);

    /// A reservation has been enqueued.
    fn reservation_added(&self);

    /// A reservation was fulfilled; a connection was available in
    /// time.
    fn reservation_fulfilled(&self, after_ms: u64);

    /// A reservation was not fulfilled; no connection was available in
    /// time.
    fn reservation_not_fulfilled(&self, after_ms: u64);

    /// The reservation queue has a limit and the limit was just
    /// reached: a checkout failed at once.
    fn reservation_limit_reached(&self);

    /// The connection factory was asked for a new connection and
    /// failed to produce one.
    fn connection_factory_failed(&self);

    /// The number of connections in the pool that can be used changed.
    fn usable_connections_changed(&self, min: usize, max: usize);

    /// The number of connections in flight changed.
    fn in_flight_connections_changed(&self, min: usize, max: usize);
}

impl Instrumentation for () {
    fn checked_out_connection(&self) {
    }

    fn checked_in_returned_connection(&self, _flight_time_ms: u64) {
    }

    fn checked_in_new_connection(&self) {
    }

    fn connection_dropped(&self, _flight_time_ms: u64, _lifetime_ms: u64) {
    }

    fn idle_connections_changed(&self, _min: usize, _max: usize) {
    }

    fn connection_created(&self, _connected_after_ms: u64, _total_time_ms: u64) {
    }

    fn killed_connection(&self, _lifetime_ms: u64) {
    }

    fn reservations_changed(&self, _min: usize, _max: usize, _limit: Option<usize>) {
    }

    fn reservation_added(&self) {
    }

    fn reservation_fulfilled(&self, _after_ms: u64) {
    }

    fn reservation_not_fulfilled(&self, _after_ms: u64) {
    }

    fn reservation_limit_reached(&self) {
    }

    fn connection_factory_failed(&self) {
    }

    fn usable_connections_changed(&self, _min: usize, _max: usize) {
    }

    fn in_flight_connections_changed(&self, _min: usize, _max: usize) {
    }
}

} // verus!
