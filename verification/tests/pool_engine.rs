use reool::activation_order::ActivationOrder;
use reool::backoff_strategy::BackoffStrategy;
use reool::config::Config;
use reool::error::CheckoutErrorKind;
use reool::pool::inner_pool::{CheckInOutcome, CheckOutReply, InnerPool, Waiting};
use reool::pool::{
    creation_attempt_step, elapsed_ms, new_conn_stream_step, route_return, CheckInParcel, Config
    as PoolConfig, CreationStep, Managed, MinMax, NewConnMessage, PoolStats, ReturnRoute,
    StreamAction,
};
use reool::pools::shared_pool::SharedPool;
use reool::pools::PoolCheckout;
use reool::Poolable;

struct TestConn {
    uri: String,
}

impl TestConn {
    fn new() -> Self {
        TestConn { uri: "redis://127.0.0.1:6379".to_string() }
    }
}

impl Poolable for TestConn {
    fn connected_to(&self) -> &str {
        self.uri.as_str()
    }
}

fn expect_err<T, E>(r: Result<T, E>) -> E {
    match r {
        Err(e) => e,
        Ok(_) => panic!("expected an error"),
    }
}

fn engine(desired: usize, limit: Option<usize>, order: ActivationOrder) -> InnerPool<TestConn> {
    InnerPool::new(PoolConfig {
        desired_pool_size: desired,
        backoff_strategy: BackoffStrategy::NoBackoff,
        reservation_limit: limit,
        stats_interval_ms: 100,
        activation_order: order,
    })
}

/// Asks for and checks in `n` fresh connections, as the creation loop
/// would.
fn fill(pool: &mut InnerPool<TestConn>, n: usize, now: u64) {
    for _ in 0..n {
        let msg = pool.request_new_conn();
        assert_eq!(msg, NewConnMessage::RequestNewConn);
        let handle = Managed::fresh(TestConn::new(), now);
        let outcome = pool.check_in(CheckInParcel::Fresh(handle), now);
        assert!(matches!(outcome, CheckInOutcome::ToIdle));
    }
}

fn conservation_holds(pool: &InnerPool<TestConn>) -> bool {
    let s = pool.state();
    s.idle + s.in_flight == s.pool_size
}

#[test]
fn warm_path_grants_up_to_size_then_hits_the_limit() {
    // one node, two connections, no reservations allowed
    let mut config = Config::default();
    config.desired_pool_size = 2;
    config.reservation_limit = Some(0);
    config.connect_to_nodes = vec!["redis://127.0.0.1:6379".to_string()];
    let mut pool: SharedPool<TestConn> = SharedPool::new(config).unwrap();
    for _ in 0..2 {
        let _ = pool.request_new_conn();
        let handle = Managed::fresh(TestConn::new(), 0);
        let outcome = pool.check_in(CheckInParcel::Fresh(handle), 0);
        assert!(matches!(outcome, CheckInOutcome::ToIdle));
    }
    assert_eq!(pool.state().idle, 2);

    let first = pool.check_out(10).unwrap();
    assert!(matches!(first, PoolCheckout::Ready { .. }));
    let second = pool.check_out(11).unwrap();
    assert!(matches!(second, PoolCheckout::Ready { .. }));
    let third = expect_err(pool.check_out(12));
    assert_eq!(third.kind(), CheckoutErrorKind::ReservationLimitReached);

    let s = pool.state();
    assert_eq!(s.pool_size, 2);
    assert_eq!(s.in_flight, 2);
    assert_eq!(s.idle, 0);
}

#[test]
fn queued_checkouts_resolve_in_enqueue_order() {
    // one connection, up to four reservations, no deadline
    let mut pool = engine(1, Some(4), ActivationOrder::LiFo);
    fill(&mut pool, 1, 0);

    let first = pool.check_out(10).unwrap();
    let mut held = match first {
        CheckOutReply::Granted(handle) => handle,
        CheckOutReply::Enqueued { .. } => panic!("an idle connection was there"),
    };
    let mut tickets = Vec::new();
    for i in 0..4 {
        match pool.check_out(20 + i).unwrap() {
            CheckOutReply::Granted(_) => panic!("nothing is idle"),
            CheckOutReply::Enqueued { ticket } => tickets.push(ticket),
        }
    }
    assert!(tickets.windows(2).all(|w| w[0] < w[1]));
    assert!(conservation_holds(&pool));
    // the queue is at its cap now: a fifth waiter is refused
    assert_eq!(pool.state().reservations, 4);
    let over = expect_err(pool.check_out(30));
    assert_eq!(over.kind(), CheckoutErrorKind::ReservationLimitReached);

    // each returned handle goes to the waiters in enqueue order
    for expected in &tickets {
        match pool.check_in(CheckInParcel::Alive(held), 100) {
            CheckInOutcome::Fulfilled { ticket, handle, .. } => {
                assert_eq!(ticket, *expected);
                held = handle;
            }
            _ => panic!("a waiter was there"),
        }
    }
    match pool.check_in(CheckInParcel::Alive(held), 200) {
        CheckInOutcome::ToIdle => {}
        _ => panic!("the queue was drained"),
    }
    let s = pool.state();
    assert_eq!((s.pool_size, s.in_flight, s.idle, s.reservations), (1, 0, 1, 0));
}

#[test]
fn timed_out_waiters_leave_and_the_pool_stays_consistent() {
    // one connection, 50 ms checkout deadline
    let mut config = Config::default();
    config.desired_pool_size = 1;
    config.checkout_timeout_ms = Some(50);
    config.connect_to_nodes = vec!["redis://127.0.0.1:6379".to_string()];
    let mut pool: SharedPool<TestConn> = SharedPool::new(config).unwrap();
    let _ = pool.request_new_conn();
    let outcome = pool.check_in(CheckInParcel::Fresh(Managed::fresh(TestConn::new(), 0)), 0);
    assert!(matches!(outcome, CheckInOutcome::ToIdle));

    let held = match pool.check_out(10).unwrap() {
        PoolCheckout::Ready { handle, .. } => handle,
        _ => panic!("an idle connection was there"),
    };

    let mut tickets = Vec::new();
    for i in 0..3 {
        match pool.check_out(20 + i).unwrap() {
            PoolCheckout::Waiting { ticket, timeout_ms, pool_index, retry } => {
                assert_eq!(retry, None);
                assert_eq!(timeout_ms, Some(50));
                assert_eq!(pool_index, 0);
                tickets.push(ticket);
            }
            _ => panic!("nothing is idle"),
        }
    }
    // the deadline fires for all three; each abandons its reservation
    for (i, ticket) in tickets.iter().enumerate() {
        let since = pool.cancel_waiter(*ticket).unwrap();
        assert_eq!(since, 20 + i as u64);
    }
    assert_eq!(pool.cancel_waiter(tickets[0]), None);
    let s = pool.state();
    assert_eq!((s.pool_size, s.in_flight, s.idle, s.reservations), (1, 1, 0, 0));

    // releasing the held handle leaves it idle
    match pool.check_in(CheckInParcel::Alive(held), 100) {
        CheckInOutcome::ToIdle => {}
        _ => panic!("no live waiter is left"),
    }
    let s = pool.state();
    assert_eq!((s.pool_size, s.in_flight, s.idle, s.reservations), (1, 0, 1, 0));
}

#[test]
fn defective_return_shrinks_and_requests_a_replacement() {
    let mut pool = engine(1, Some(50), ActivationOrder::LiFo);
    fill(&mut pool, 1, 0);

    let mut held = match pool.check_out(10).unwrap() {
        CheckOutReply::Granted(handle) => handle,
        _ => panic!("an idle connection was there"),
    };
    // the caller finds the connection defective and takes it out
    held.value = None;
    let parcel = match route_return(held, 60) {
        ReturnRoute::CheckIn(parcel) => parcel,
        ReturnRoute::Discard { .. } => panic!("the handle was not marked for kill"),
    };
    match &parcel {
        CheckInParcel::Dropped { flight_ms, lifetime_ms } => {
            assert_eq!(*flight_ms, Some(50));
            assert_eq!(*lifetime_ms, 60);
        }
        _ => panic!("a defective handle counts as dropped"),
    }
    match pool.check_in(parcel, 60) {
        CheckInOutcome::Restock { request } => assert_eq!(request, NewConnMessage::RequestNewConn),
        _ => panic!("a dropped connection asks for a replacement"),
    }
    let s = pool.state();
    assert_eq!((s.pool_size, s.in_flight, s.idle), (0, 0, 0));

    // the creation loop serves the request and restores the size
    match creation_attempt_step(&BackoffStrategy::NoBackoff, 1, true, true) {
        CreationStep::InsertFresh => {}
        _ => panic!("the factory succeeded"),
    }
    let outcome = pool.check_in(CheckInParcel::Fresh(Managed::fresh(TestConn::new(), 70)), 70);
    assert!(matches!(outcome, CheckInOutcome::ToIdle));
    assert_eq!(pool.state().pool_size, 1);
    assert!(conservation_holds(&pool));
}

#[test]
fn shrinking_kills_returned_handles_until_the_pool_is_empty() {
    let mut pool = engine(4, None, ActivationOrder::LiFo);
    fill(&mut pool, 4, 0);

    let mut held = Vec::new();
    for i in 0..4 {
        match pool.check_out(10 + i).unwrap() {
            CheckOutReply::Granted(handle) => held.push(handle),
            _ => panic!("an idle connection was there"),
        }
    }
    // four shrink requests while everything is in flight
    for _ in 0..4 {
        assert!(pool.remove_conn().is_none());
    }
    assert!(conservation_holds(&pool));

    // each returned handle is killed instead of going idle
    for handle in held {
        match pool.check_in(CheckInParcel::Alive(handle), 100) {
            CheckInOutcome::SentinelKill { handle, .. } => {
                assert!(handle.marked_for_kill);
                match route_return(handle, 120) {
                    ReturnRoute::Discard { lifetime_ms } => assert_eq!(lifetime_ms, 120),
                    _ => panic!("a marked handle is only discarded"),
                }
            }
            _ => panic!("a sentinel was waiting"),
        }
    }
    let s = pool.state();
    assert_eq!((s.pool_size, s.in_flight, s.idle, s.reservations), (0, 0, 0, 0));

    // a later checkout has to wait; its deadline will fail it
    match pool.check_out(200).unwrap() {
        CheckOutReply::Enqueued { ticket } => {
            assert!(pool.cancel_waiter(ticket).is_some());
        }
        _ => panic!("nothing is idle"),
    }
    assert!(conservation_holds(&pool));
}

#[test]
fn conservation_holds_under_a_mixed_workload() {
    // a deterministic pseudo-random mix of checkouts, returns, drops,
    // cancellations and shrinks; the counters must balance after every
    // single operation
    let mut pool = engine(8, Some(5), ActivationOrder::FiFo);
    fill(&mut pool, 8, 0);
    let mut held: Vec<Managed<TestConn>> = Vec::new();
    let mut tickets: Vec<u64> = Vec::new();
    let mut seed: u64 = 0x2545F4914F6CDD1D;
    for step in 0..500u64 {
        seed = seed.wrapping_mul(6364136223846793005).wrapping_add(1442695040888963407);
        let now = step + 1;
        match seed % 6 {
            0 | 1 => match pool.check_out(now) {
                Ok(CheckOutReply::Granted(handle)) => held.push(handle),
                Ok(CheckOutReply::Enqueued { ticket }) => tickets.push(ticket),
                Err(e) => assert_eq!(e.kind(), CheckoutErrorKind::ReservationLimitReached),
            },
            2 | 3 => {
                if let Some(mut handle) = held.pop() {
                    let defective = seed & 16 != 0;
                    if defective {
                        handle.value = None;
                    }
                    let parcel = match route_return(handle, now) {
                        ReturnRoute::CheckIn(parcel) => parcel,
                        ReturnRoute::Discard { .. } => panic!("held handles are not marked"),
                    };
                    match pool.check_in(parcel, now) {
                        CheckInOutcome::Fulfilled { ticket, handle, .. } => {
                            let position =
                                tickets.iter().position(|t| *t == ticket).expect("a known waiter");
                            // FIFO fairness: the oldest waiter is served
                            assert_eq!(position, 0);
                            tickets.remove(position);
                            held.push(handle);
                        }
                        CheckInOutcome::ToIdle => assert!(tickets.is_empty()),
                        CheckInOutcome::SentinelKill { handle, .. } => {
                            assert!(handle.marked_for_kill)
                        }
                        CheckInOutcome::Restock { .. } => {
                            assert!(defective);
                            // the replacement arrives later
                            let fresh = Managed::fresh(TestConn::new(), now);
                            match pool.check_in(CheckInParcel::Fresh(fresh), now) {
                                CheckInOutcome::Fulfilled { ticket, handle, .. } => {
                                    let position = tickets
                                        .iter()
                                        .position(|t| *t == ticket)
                                        .expect("a known waiter");
                                    assert_eq!(position, 0);
                                    tickets.remove(position);
                                    held.push(handle);
                                }
                                CheckInOutcome::ToIdle => assert!(tickets.is_empty()),
                                CheckInOutcome::SentinelKill { handle, .. } => {
                                    assert!(handle.marked_for_kill)
                                }
                                CheckInOutcome::Restock { .. } => {
                                    panic!("a fresh connection is never dropped")
                                }
                            }
                        }
                    }
                }
            }
            4 => {
                if !tickets.is_empty() {
                    let pick = (seed as usize / 8) % tickets.len();
                    let ticket = tickets.remove(pick);
                    assert!(pool.cancel_waiter(ticket).is_some());
                }
            }
            _ => {
                let _ = pool.remove_conn();
            }
        }
        assert!(conservation_holds(&pool));
        let state = pool.state();
        assert!(state.reservations <= 5);
        assert_eq!(state.in_flight, held.len());
        assert_eq!(state.reservations, tickets.len());
    }
}

#[test]
fn shrinking_with_an_idle_connection_kills_it_at_once() {
    let mut pool = engine(2, None, ActivationOrder::LiFo);
    fill(&mut pool, 2, 0);
    let killed = pool.remove_conn().unwrap();
    assert!(killed.marked_for_kill);
    let s = pool.state();
    assert_eq!((s.pool_size, s.idle), (1, 1));
}

#[test]
fn lifo_takes_the_newest_idle_connection_first() {
    let mut pool = engine(2, None, ActivationOrder::LiFo);
    let _ = pool.request_new_conn();
    let outcome = pool.check_in(CheckInParcel::Fresh(Managed::fresh(TestConn::new(), 1)), 1);
    assert!(matches!(outcome, CheckInOutcome::ToIdle));
    let _ = pool.request_new_conn();
    let outcome = pool.check_in(CheckInParcel::Fresh(Managed::fresh(TestConn::new(), 2)), 2);
    assert!(matches!(outcome, CheckInOutcome::ToIdle));
    match pool.check_out(10).unwrap() {
        CheckOutReply::Granted(handle) => assert_eq!(handle.created_at, 2),
        _ => panic!("an idle connection was there"),
    }
}

#[test]
fn fifo_takes_the_oldest_idle_connection_first() {
    let mut pool = engine(2, None, ActivationOrder::FiFo);
    let _ = pool.request_new_conn();
    let outcome = pool.check_in(CheckInParcel::Fresh(Managed::fresh(TestConn::new(), 1)), 1);
    assert!(matches!(outcome, CheckInOutcome::ToIdle));
    let _ = pool.request_new_conn();
    let outcome = pool.check_in(CheckInParcel::Fresh(Managed::fresh(TestConn::new(), 2)), 2);
    assert!(matches!(outcome, CheckInOutcome::ToIdle));
    match pool.check_out(10).unwrap() {
        CheckOutReply::Granted(handle) => assert_eq!(handle.created_at, 1),
        _ => panic!("an idle connection was there"),
    }
}

#[test]
fn a_returned_handle_prefers_the_front_waiter_over_idle() {
    let mut pool = engine(1, None, ActivationOrder::LiFo);
    fill(&mut pool, 1, 0);
    let held = match pool.check_out(10).unwrap() {
        CheckOutReply::Granted(handle) => handle,
        _ => panic!("an idle connection was there"),
    };
    let ticket = match pool.check_out(20).unwrap() {
        CheckOutReply::Enqueued { ticket } => ticket,
        _ => panic!("nothing is idle"),
    };
    match pool.check_in(CheckInParcel::Alive(held), 30) {
        CheckInOutcome::Fulfilled { ticket: t, waited_ms, handle } => {
            assert_eq!(t, ticket);
            assert_eq!(waited_ms, 10);
            assert_eq!(handle.checked_out_at, Some(30));
        }
        _ => panic!("the waiter comes first"),
    }
    assert_eq!(pool.state().idle, 0);
}

#[test]
fn abandoned_waiters_are_skipped_for_later_ones() {
    let mut pool = engine(1, None, ActivationOrder::LiFo);
    fill(&mut pool, 1, 0);
    let held = match pool.check_out(10).unwrap() {
        CheckOutReply::Granted(handle) => handle,
        _ => panic!("an idle connection was there"),
    };
    let t1 = match pool.check_out(20).unwrap() {
        CheckOutReply::Enqueued { ticket } => ticket,
        _ => panic!("nothing is idle"),
    };
    let t2 = match pool.check_out(21).unwrap() {
        CheckOutReply::Enqueued { ticket } => ticket,
        _ => panic!("nothing is idle"),
    };
    // the first waiter gives up before a connection comes back
    assert_eq!(pool.cancel_waiter(t1), Some(20));
    match pool.check_in(CheckInParcel::Alive(held), 40) {
        CheckInOutcome::Fulfilled { ticket, .. } => assert_eq!(ticket, t2),
        _ => panic!("the second waiter is still there"),
    }
}

#[test]
fn waiting_entries_carry_their_tickets() {
    assert_eq!(
        Waiting::checkout(7, 100),
        Waiting::Checkout { ticket: 7, waiting_since: 100 }
    );
    assert_eq!(Waiting::reduce_pool_size(), Waiting::ReducePoolSize);
}

#[test]
fn backoff_delays_follow_the_strategy() {
    assert_eq!(BackoffStrategy::NoBackoff.get_next_backoff(1), None);
    assert_eq!(
        BackoffStrategy::Constant { delay_ms: 100 }.get_next_backoff(3),
        Some(100)
    );
    let incremental = BackoffStrategy::Incremental { start_ms: 10, step_ms: 5 };
    assert_eq!(incremental.get_next_backoff(1), Some(10));
    assert_eq!(incremental.get_next_backoff(2), Some(15));
    assert_eq!(incremental.get_next_backoff(4), Some(25));
    let saturating = BackoffStrategy::Incremental { start_ms: u64::MAX - 1, step_ms: u64::MAX };
    assert_eq!(saturating.get_next_backoff(2), Some(u64::MAX));
}

#[test]
fn creation_loop_retries_with_growing_delays() {
    let strategy = BackoffStrategy::Incremental { start_ms: 10, step_ms: 10 };
    let mut attempt = 1;
    let mut delays = Vec::new();
    for _ in 0..4 {
        match creation_attempt_step(&strategy, attempt, false, true) {
            CreationStep::Retry { next_attempt, delay_ms } => {
                delays.push(delay_ms.unwrap());
                attempt = next_attempt;
            }
            _ => panic!("the factory kept failing"),
        }
    }
    assert_eq!(delays, vec![10, 20, 30, 40]);
    assert!(delays.windows(2).all(|w| w[0] <= w[1]));
    assert!(matches!(
        creation_attempt_step(&strategy, attempt, true, true),
        CreationStep::InsertFresh
    ));
    assert!(matches!(
        creation_attempt_step(&strategy, attempt, false, false),
        CreationStep::Abort
    ));
}

#[test]
fn creation_stream_obeys_shutdown_and_a_gone_pool() {
    assert_eq!(
        new_conn_stream_step(false, NewConnMessage::RequestNewConn, true),
        (false, StreamAction::StartCreate)
    );
    assert_eq!(
        new_conn_stream_step(false, NewConnMessage::RequestNewConn, false),
        (false, StreamAction::Stop)
    );
    assert_eq!(
        new_conn_stream_step(false, NewConnMessage::Shutdown, true),
        (true, StreamAction::Ignore)
    );
    assert_eq!(
        new_conn_stream_step(true, NewConnMessage::RequestNewConn, true),
        (true, StreamAction::Ignore)
    );
}

#[test]
fn a_live_handle_routes_back_alive() {
    let handle = Managed::fresh(TestConn::new(), 5);
    match route_return(handle, 9) {
        ReturnRoute::CheckIn(CheckInParcel::Alive(handle)) => {
            assert_eq!(handle.created_at, 5);
            assert!(handle.value.is_some());
        }
        _ => panic!("the handle still holds its connection"),
    }
}

#[test]
fn elapsed_saturates_at_zero() {
    assert_eq!(elapsed_ms(10, 4), 6);
    assert_eq!(elapsed_ms(4, 10), 0);
}

#[test]
fn min_max_reports_its_bounds() {
    let mm = MinMax(2, 5);
    assert_eq!(mm.min(), 2);
    assert_eq!(mm.max(), 5);
    assert_eq!(MinMax::of(3), MinMax(3, 3));
    assert_eq!(MinMax(1, 4).merge(&MinMax(0, 3)), MinMax(0, 4));
    assert_eq!(MinMax::default(), MinMax(0, 0));
}

#[test]
fn engine_stats_sample_the_counters() {
    let mut pool = engine(2, Some(3), ActivationOrder::LiFo);
    fill(&mut pool, 2, 0);
    let _held = match pool.check_out(5).unwrap() {
        CheckOutReply::Granted(handle) => handle,
        _ => panic!("an idle connection was there"),
    };
    let stats = pool.stats();
    assert_eq!(stats.pool_size, MinMax(2, 2));
    assert_eq!(stats.in_flight, MinMax(1, 1));
    assert_eq!(stats.idle, MinMax(1, 1));
    assert_eq!(stats.reservations, MinMax(0, 0));
    assert_eq!(stats.node_count, 1);
    assert_eq!(PoolStats::default().node_count, 0);
}

#[test]
fn shared_pool_hands_stats_out_at_the_configured_interval() {
    let mut config = Config::default();
    config.desired_pool_size = 1;
    config.stats_interval_ms = 100;
    config.connect_to_nodes = vec!["redis://127.0.0.1:6379".to_string()];
    let mut pool: SharedPool<TestConn> = SharedPool::new(config).unwrap();
    assert!(pool.trigger_stats(100).is_some());
    assert!(pool.trigger_stats(150).is_none());
    assert!(pool.trigger_stats(200).is_some());
    assert_eq!(pool.stats().node_count, 1);
    assert_eq!(pool.connected_to(), &vec!["redis://127.0.0.1:6379".to_string()]);
}

#[test]
fn shared_pool_refuses_a_bad_configuration() {
    let mut config = Config::default();
    config.desired_pool_size = 0;
    config.connect_to_nodes = vec!["a".to_string()];
    let err = expect_err(SharedPool::<TestConn>::new(config));
    assert_eq!(err.describe(), "'desired_pool_size' must be at least 1");
    let config = Config::default();
    let err = expect_err(SharedPool::<TestConn>::new(config));
    assert_eq!(err.describe(), "there is nothing to connect to.");
}
