use reool::backoff_strategy::BackoffStrategy;
use reool::config::Config;
use reool::error::CheckoutErrorKind;
use reool::pool::inner_pool::{CheckInOutcome, CheckOutReply};
use reool::pool::{CheckInParcel, Managed};
use reool::pools::pool_per_node::{div_ceil, PoolPerNode};
use reool::pools::single_pool::SinglePool;
use reool::pools::PoolCheckout;
use reool::{Ping, PingState, Poolable, RedisPool};

struct TestConn {
    uri: String,
}

impl TestConn {
    fn new() -> Self {
        TestConn { uri: "redis://127.0.0.1:6379".to_string() }
    }
}

impl Poolable for TestConn {
    fn connected_to(&self) -> &str {
        self.uri.as_str()
    }
}

fn expect_err<T, E>(r: Result<T, E>) -> E {
    match r {
        Err(e) => e,
        Ok(_) => panic!("expected an error"),
    }
}

fn two_node_config() -> Config {
    let mut config = Config::default();
    config.desired_pool_size = 1;
    config.checkout_timeout_ms = Some(50);
    config.connect_to_nodes =
        vec!["redis://10.0.0.1:6379".to_string(), "redis://10.0.0.2:6379".to_string()];
    config
}

/// Serves one creation request of the pool at `pool_index`, as the
/// creation loop would after a factory success.
fn fill_pool(pool: &mut PoolPerNode<TestConn>, pool_index: usize, now: u64) {
    let _ = pool.request_new_conn(pool_index);
    let outcome = pool.check_in(pool_index, CheckInParcel::Fresh(Managed::fresh(TestConn::new(), now)), now);
    assert!(matches!(outcome, CheckInOutcome::ToIdle));
}

#[test]
fn pools_are_multiplied_per_node() {
    let mut config = two_node_config();
    config.pool_per_node_multiplier = 3;
    let pool: PoolPerNode<TestConn> = PoolPerNode::new(config).unwrap();
    assert_eq!(pool.pool_count(), 6);
    assert_eq!(pool.node_of_pool(0), 0);
    assert_eq!(pool.node_of_pool(1), 1);
    assert_eq!(pool.node_of_pool(2), 0);
    assert_eq!(pool.node_of_pool(5), 1);
    assert_eq!(pool.connected_to().len(), 2);
}

#[test]
fn multiplied_pools_divide_their_shares_rounded_up() {
    // the desired size and the reservation limit are divided among the
    // multiplied pools, rounded up
    assert_eq!(div_ceil(4, 2), 2);
    assert_eq!(div_ceil(5, 2), 3);
    assert_eq!(div_ceil(1, 3), 1);
    assert_eq!(div_ceil(0, 3), 0);
    assert_eq!(div_ceil(6, 1), 6);
}

#[test]
fn facade_stats_cover_every_sibling() {
    let mut config = two_node_config();
    config.reservation_limit = None;
    let per_node = PoolPerNode::new(config).unwrap();
    let mut pool: RedisPool<TestConn> = RedisPool::per_node(per_node);
    let _ = pool.request_new_conn(0);
    let outcome = pool.check_in(0, CheckInParcel::Fresh(Managed::fresh(TestConn::new(), 0)), 0);
    assert!(matches!(outcome, CheckInOutcome::ToIdle));
    let stats = pool.stats();
    assert_eq!(stats.node_count, 2);
    assert_eq!((stats.idle.min(), stats.idle.max()), (0, 1));
    let empty: RedisPool<TestConn> = RedisPool::no_pool();
    assert_eq!(empty.stats().node_count, 0);
}

#[test]
fn a_zero_multiplier_is_refused() {
    let mut config = two_node_config();
    config.pool_per_node_multiplier = 0;
    let err = expect_err(PoolPerNode::<TestConn>::new(config));
    assert_eq!(err.describe(), "pool_per_node_multiplier may not be zero");
}

#[test]
fn round_robin_spreads_first_attempts_uniformly() {
    // with nothing idle and no reservation limit, the pool that takes
    // the reservation is the pool of the first attempt
    let mut config = two_node_config();
    config.connect_to_nodes.push("redis://10.0.0.3:6379".to_string());
    config.reservation_limit = None;
    let mut pool: PoolPerNode<TestConn> = PoolPerNode::new(config).unwrap();
    assert_eq!(pool.pool_count(), 3);

    let mut first_attempts = vec![0usize; 3];
    for i in 0..7 {
        match pool.check_out(i).unwrap() {
            PoolCheckout::Waiting { pool_index, ticket, .. } => {
                first_attempts[pool_index] += 1;
                // tidy up so only the dispatch is measured
                assert!(pool.cancel_waiter(pool_index, ticket).is_some());
            }
            _ => panic!("nothing is idle"),
        }
    }
    // 7 checkouts over 3 pools: between floor(7/3) and ceil(7/3) each
    assert_eq!(first_attempts.iter().sum::<usize>(), 7);
    assert!(first_attempts.iter().all(|&n| n == 2 || n == 3));
}

#[test]
fn checkouts_fail_over_to_the_next_healthy_node() {
    // the factory for the second node always fails: that pool never
    // receives a connection, so a checkout dispatched to it waits
    // until its deadline fires; resuming the dispatch then serves the
    // caller from the first node, so every checkout succeeds
    let config = two_node_config();
    let mut pool: PoolPerNode<TestConn> = PoolPerNode::new(config).unwrap();
    fill_pool(&mut pool, 0, 0);

    for round in 0..4u64 {
        let now = 100 * (round + 1);
        let handle = match pool.check_out(now).unwrap() {
            // the cursor stood at the healthy node
            PoolCheckout::Ready { pool_index, handle } => {
                assert_eq!(pool_index, 0);
                handle
            }
            // the cursor stood at the dead node: the wait times out,
            // the caller abandons its ticket and the dispatch resumes
            // at the next sibling
            PoolCheckout::Waiting { pool_index, ticket, timeout_ms, retry } => {
                assert_eq!(pool_index, 1);
                assert_eq!(timeout_ms, Some(50));
                let point = retry.expect("a pool-per-node wait can fail over");
                assert_eq!((point.cursor, point.attempt), (1, 0));
                assert!(pool.cancel_waiter(pool_index, ticket).is_some());
                match pool
                    .resume_check_out(point.cursor, point.attempt + 1, timeout_ms, now + 50)
                    .unwrap()
                {
                    PoolCheckout::Ready { pool_index, handle } => {
                        assert_eq!(pool_index, 0);
                        handle
                    }
                    _ => panic!("the healthy node has an idle connection"),
                }
            }
        };
        let outcome = pool.check_in(0, CheckInParcel::Alive(handle), now + 60);
        assert!(matches!(outcome, CheckInOutcome::ToIdle));
    }
    assert_eq!(pool.pool_state(0).pool_size, 1);
    assert_eq!(pool.pool_state(1).pool_size, 0);
    assert_eq!(pool.pool_state(1).reservations, 0);
}

#[test]
fn a_worn_out_dispatch_fails_with_no_connection() {
    // both nodes dead: the first attempt waits and times out; the
    // resumed walk enqueues on the second sibling, which also times
    // out; resuming past the last attempt fails with NoConnection
    let config = two_node_config();
    let mut pool: PoolPerNode<TestConn> = PoolPerNode::new(config).unwrap();
    let (idx1, ticket1, point) = match pool.check_out(10).unwrap() {
        PoolCheckout::Waiting { pool_index, ticket, retry, .. } => {
            (pool_index, ticket, retry.unwrap())
        }
        _ => panic!("nothing is idle"),
    };
    assert!(pool.cancel_waiter(idx1, ticket1).is_some());
    let (idx2, ticket2, point2) = match pool
        .resume_check_out(point.cursor, point.attempt + 1, Some(50), 60)
        .unwrap()
    {
        PoolCheckout::Waiting { pool_index, ticket, retry, .. } => {
            (pool_index, ticket, retry.unwrap())
        }
        _ => panic!("nothing is idle"),
    };
    assert_eq!(point2.cursor, point.cursor);
    assert_eq!(point2.attempt, 1);
    assert!(pool.cancel_waiter(idx2, ticket2).is_some());
    let err = expect_err(pool.resume_check_out(point2.cursor, point2.attempt + 1, Some(50), 120));
    assert_eq!(err.kind(), CheckoutErrorKind::NoConnection);
}

#[test]
fn with_every_pool_refusing_the_checkout_fails() {
    let mut config = two_node_config();
    config.reservation_limit = Some(0);
    let mut pool: PoolPerNode<TestConn> = PoolPerNode::new(config).unwrap();
    let err = expect_err(pool.check_out(10));
    assert_eq!(err.kind(), CheckoutErrorKind::NoConnection);
}

#[test]
fn multi_pool_stats_aggregate_over_the_siblings() {
    let mut config = two_node_config();
    config.reservation_limit = None;
    let mut pool: PoolPerNode<TestConn> = PoolPerNode::new(config).unwrap();
    fill_pool(&mut pool, 0, 0);
    let stats = pool.stats();
    assert_eq!(stats.node_count, 2);
    assert_eq!(stats.pool_size.min(), 0);
    assert_eq!(stats.pool_size.max(), 1);
    assert_eq!(stats.idle.min(), 0);
    assert_eq!(stats.idle.max(), 1);
}

#[test]
fn an_empty_facade_refuses_every_checkout() {
    let mut pool: RedisPool<TestConn> = RedisPool::no_pool();
    let err = expect_err(pool.check_out(5));
    assert_eq!(err.kind(), CheckoutErrorKind::NoPool);
    let err = expect_err(pool.check_out_explicit_timeout(Some(10), 6));
    assert_eq!(err.kind(), CheckoutErrorKind::NoPool);
    assert_eq!(pool.connected_to(), Vec::<String>::new());
}

#[test]
fn the_facade_hands_out_the_configured_deadline() {
    let mut config = Config::default();
    config.desired_pool_size = 1;
    config.checkout_timeout_ms = Some(70);
    config.connect_to_nodes = vec!["redis://127.0.0.1:6379".to_string()];
    let shared = reool::pools::shared_pool::SharedPool::new(config).unwrap();
    let mut pool: RedisPool<TestConn> = RedisPool::shared(shared);
    assert_eq!(pool.connected_to(), vec!["redis://127.0.0.1:6379".to_string()]);

    match pool.check_out(10).unwrap() {
        PoolCheckout::Waiting { timeout_ms, ticket, pool_index, retry } => {
            assert_eq!(retry, None);
            assert_eq!(timeout_ms, Some(70));
            assert_eq!(pool_index, 0);
            assert_eq!(pool.cancel_waiter(0, ticket), Some(10));
        }
        _ => panic!("nothing is idle"),
    }
    match pool.check_out_explicit_timeout(None, 20).unwrap() {
        PoolCheckout::Waiting { timeout_ms, ticket, .. } => {
            assert_eq!(timeout_ms, None);
            assert_eq!(pool.cancel_waiter(0, ticket), Some(20));
        }
        _ => panic!("nothing is idle"),
    }
}

#[test]
fn the_facade_routes_check_ins_to_the_right_pool() {
    let mut config = two_node_config();
    config.reservation_limit = None;
    let per_node = PoolPerNode::new(config).unwrap();
    let mut pool: RedisPool<TestConn> = RedisPool::per_node(per_node);
    assert_eq!(pool.connected_to().len(), 2);

    // the first checkout reserves on pool 0; a fresh connection for
    // that pool serves it
    let ticket = match pool.check_out(10).unwrap() {
        PoolCheckout::Waiting { pool_index, ticket, .. } => {
            assert_eq!(pool_index, 0);
            ticket
        }
        _ => panic!("nothing is idle"),
    };
    let _ = pool.request_new_conn(0);
    match pool.check_in(0, CheckInParcel::Fresh(Managed::fresh(TestConn::new(), 40)), 40) {
        CheckInOutcome::Fulfilled { ticket: t, waited_ms, handle } => {
            assert_eq!(t, ticket);
            assert_eq!(waited_ms, 30);
            let outcome = pool.check_in(0, CheckInParcel::Alive(handle), 50);
            assert!(matches!(outcome, CheckInOutcome::ToIdle));
        }
        _ => panic!("the waiter was first in line"),
    }
}

#[test]
fn single_pool_serves_exactly_one_node() {
    let mut config = Config::default();
    config.desired_pool_size = 1;
    config.connect_to_nodes = vec!["redis://127.0.0.1:6379".to_string()];
    let mut pool: SinglePool<TestConn> = SinglePool::new(config).unwrap();
    assert_eq!(pool.connected_to(), "redis://127.0.0.1:6379");

    let _ = pool.request_new_conn();
    let outcome = pool.check_in(CheckInParcel::Fresh(Managed::fresh(TestConn::new(), 0)), 0);
    assert!(matches!(outcome, CheckInOutcome::ToIdle));
    match pool.check_out(10).unwrap() {
        CheckOutReply::Granted(handle) => {
            let outcome = pool.check_in(CheckInParcel::Alive(handle), 20);
            assert!(matches!(outcome, CheckInOutcome::ToIdle));
        }
        _ => panic!("an idle connection was there"),
    }
    let state = pool.state();
    assert_eq!((state.pool_size, state.idle, state.in_flight), (1, 1, 0));
    assert!(pool.remove_conn().is_some());
    assert_eq!(pool.state().pool_size, 0);

    let mut config = Config::default();
    config.connect_to_nodes =
        vec!["redis://10.0.0.1:6379".to_string(), "redis://10.0.0.2:6379".to_string()];
    let err = expect_err(SinglePool::<TestConn>::new(config));
    assert_eq!(err.describe(), "there must be exactly 1 connection string given");
}

#[test]
fn checkout_errors_name_their_kind() {
    let err = reool::CheckoutError::new(CheckoutErrorKind::CheckoutTimeout);
    assert_eq!(err.kind(), CheckoutErrorKind::CheckoutTimeout);
    assert_eq!(err.description(), "there was no connection to checkout available in time");
    assert_eq!(
        reool::CheckoutError::new(CheckoutErrorKind::NoConnection).description(),
        "there are no connections available"
    );
    assert_eq!(
        reool::CheckoutError::new(CheckoutErrorKind::ReservationLimitReached).description(),
        "the reservation limit has been reached"
    );
    assert_eq!(
        reool::CheckoutError::new(CheckoutErrorKind::NoPool).description(),
        "there was no pool available"
    );
    assert_eq!(
        reool::CheckoutError::new(CheckoutErrorKind::CheckoutLimitReached).description(),
        "checkout limit limit reached"
    );
    assert_eq!(
        reool::CheckoutError::new(CheckoutErrorKind::TaskExecution).description(),
        "task execution failed"
    );
    let err: reool::CheckoutError = CheckoutErrorKind::NoPool.into();
    assert_eq!(err.kind(), CheckoutErrorKind::NoPool);
}

#[test]
fn pings_report_their_state() {
    let ping = Ping { latency_ms: 3, uri: Some("redis://x".to_string()), state: PingState::Healthy };
    assert!(ping.is_ok());
    assert!(!ping.is_failed());
    let ping = Ping { latency_ms: 3, uri: None, state: PingState::Failed("timed out".to_string()) };
    assert!(ping.is_failed());
}

#[test]
fn new_connection_errors_carry_their_cause() {
    let err = reool::connection_factory::NewConnectionError::new("refused".to_string());
    assert_eq!(err.description(), "could not create a new connection");
    assert_eq!(err.describe(), "could not create a new connection: refused");
}
