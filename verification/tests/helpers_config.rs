use reool::activation_order::{parse_activation_order, ActivationOrder};
use reool::backoff_strategy::BackoffStrategy;
use reool::config::{parse_node_pool_strategy, Builder, Config, NodePoolStrategy};
use reool::error::InitializationError;
use reool::helpers::{
    clone_string_vec, connect_to_from_value, env_key, is_none_literal, make_prefix,
    parse_checkout_timeout, parse_connect_to, parse_reservation_limit, parse_u64, parse_usize,
};

#[test]
fn prefix_reool_is_default() {
    let prefix = make_prefix(None);

    assert_eq!(prefix, "REOOL");
}

#[test]
fn prefix_can_be_customized() {
    let prefix = make_prefix(Some("TEST"));

    assert_eq!(prefix, "TEST");
}

#[test]
fn parse_connect_to_empty() {
    let res = parse_connect_to("");
    assert_eq!(res, Vec::<String>::new());
}

#[test]
fn parse_connect_to_one() {
    let res = parse_connect_to("redis://127.0.0.1:6379");
    assert_eq!(res, vec!["redis://127.0.0.1:6379".to_string()]);
}

#[test]
fn parse_connect_to_two() {
    let res = parse_connect_to("redis://127.0.0.1:6379;redis://127.0.0.1:6380");
    assert_eq!(
        res,
        vec![
            "redis://127.0.0.1:6379".to_string(),
            "redis://127.0.0.1:6380".to_string()
        ]
    );
}

#[test]
fn parse_connect_to_trims_and_drops_empty_pieces() {
    let res = parse_connect_to(" a ;; b ");
    assert_eq!(res, vec!["a".to_string(), "b".to_string()]);
    // a piece that holds only white space is kept, because pieces are
    // dropped before trimming
    let res = parse_connect_to(" ; ");
    assert_eq!(res, vec![String::new(), String::new()]);
    let res = parse_connect_to(";x;");
    assert_eq!(res, vec!["x".to_string()]);
}

#[test]
fn env_key_joins_prefix_and_name() {
    assert_eq!(env_key("REOOL", "DESIRED_POOL_SIZE"), "REOOL_DESIRED_POOL_SIZE");
    assert_eq!(env_key("TEST", "CONNECT_TO"), "TEST_CONNECT_TO");
}

#[test]
fn parse_u64_accepts_plain_and_plus_prefixed_digits() {
    assert_eq!(parse_u64("0"), Ok(0));
    assert_eq!(parse_u64("123"), Ok(123));
    assert_eq!(parse_u64("+42"), Ok(42));
    assert_eq!(parse_u64("18446744073709551615"), Ok(u64::MAX));
}

#[test]
fn parse_u64_rejects_junk_and_overflow() {
    assert_eq!(parse_u64(""), Err(()));
    assert_eq!(parse_u64("+"), Err(()));
    assert_eq!(parse_u64("12a"), Err(()));
    assert_eq!(parse_u64("-3"), Err(()));
    assert_eq!(parse_u64(" 1"), Err(()));
    assert_eq!(parse_u64("18446744073709551616"), Err(()));
}

#[test]
fn parse_usize_mirrors_parse_u64() {
    assert_eq!(parse_usize("7"), Ok(7));
    assert_eq!(parse_usize("x"), Err(()));
}

#[test]
fn none_literal_ignores_ascii_case() {
    assert!(is_none_literal("NONE"));
    assert!(is_none_literal("none"));
    assert!(is_none_literal("NoNe"));
    assert!(!is_none_literal("NONE "));
    assert!(!is_none_literal("NIL"));
}

#[test]
fn checkout_timeout_value_reads_none_or_millis() {
    assert_eq!(parse_checkout_timeout("NONE"), Ok(None));
    assert_eq!(parse_checkout_timeout("none"), Ok(None));
    assert_eq!(parse_checkout_timeout("50"), Ok(Some(50)));
    assert_eq!(parse_checkout_timeout("fifty"), Err(()));
}

#[test]
fn reservation_limit_value_reads_none_or_count() {
    assert_eq!(parse_reservation_limit("NONE"), Ok(None));
    assert_eq!(parse_reservation_limit("4"), Ok(Some(4)));
    assert_eq!(parse_reservation_limit("?"), Err(()));
}

#[test]
fn connect_to_value_rejects_an_empty_list() {
    let parts = connect_to_from_value("REOOL_CONNECT_TO", "a;b").unwrap();
    assert_eq!(parts, vec!["a".to_string(), "b".to_string()]);
    let err = connect_to_from_value("REOOL_CONNECT_TO", "").unwrap_err();
    assert_eq!(
        err.describe(),
        "Found 'REOOL_CONNECT_TO' but it is empty"
    );
}

#[test]
fn activation_order_values() {
    assert_eq!(parse_activation_order("LIFO"), Ok(ActivationOrder::LiFo));
    assert_eq!(parse_activation_order("FIFO"), Ok(ActivationOrder::FiFo));
    assert_eq!(parse_activation_order("lifo"), Err(()));
}

#[test]
fn node_pool_strategy_values() {
    assert_eq!(
        parse_node_pool_strategy("SharedPool"),
        Ok(NodePoolStrategy::SharedPool)
    );
    assert_eq!(
        parse_node_pool_strategy("PoolPerNode"),
        Ok(NodePoolStrategy::PoolPerNode)
    );
    assert_eq!(parse_node_pool_strategy("PerNode"), Err(()));
}

#[test]
fn builder_collects_and_validates() {
    let config = Builder::default()
        .desired_pool_size(3)
        .checkout_timeout(Some(50))
        .backoff_strategy(BackoffStrategy::NoBackoff)
        .reservation_limit(None)
        .activation_order(ActivationOrder::FiFo)
        .stats_interval(250)
        .min_required_nodes(1)
        .connect_to_nodes(vec!["redis://127.0.0.1:6379".to_string()])
        .pool_per_node_multiplier(1)
        .node_pool_strategy(NodePoolStrategy::PoolPerNode)
        .finish()
        .unwrap();
    assert_eq!(config.desired_pool_size, 3);
    assert_eq!(config.checkout_timeout_ms, Some(50));
    assert_eq!(config.reservation_limit, None);
    assert_eq!(config.activation_order, ActivationOrder::FiFo);
    assert_eq!(config.stats_interval_ms, 250);
    assert_eq!(config.min_required_nodes, 1);
    assert_eq!(config.pool_per_node_multiplier, 1);
    assert_eq!(config.node_pool_strategy, NodePoolStrategy::PoolPerNode);

    assert!(Builder::default()
        .desired_pool_size(0)
        .connect_to_nodes(vec!["a".to_string()])
        .finish()
        .is_err());
    assert!(Builder::default()
        .pool_per_node_multiplier(0)
        .connect_to_nodes(vec!["a".to_string()])
        .finish()
        .is_err());
    assert!(Builder::default().finish().is_err());
    assert!(Builder::default()
        .min_required_nodes(2)
        .connect_to_nodes(vec!["a".to_string()])
        .finish()
        .is_err());
}

#[test]
fn default_config_values() {
    let config = Config::default();
    assert_eq!(config.desired_pool_size, 20);
    assert_eq!(config.checkout_timeout_ms, Some(20));
    assert_eq!(config.reservation_limit, Some(50));
    assert_eq!(config.activation_order, ActivationOrder::LiFo);
    assert_eq!(config.stats_interval_ms, 100);
    assert_eq!(config.pool_per_node_multiplier, 1);
    assert_eq!(config.node_pool_strategy, NodePoolStrategy::SharedPool);
    assert!(config.connect_to_nodes.is_empty());
}

#[test]
fn initialization_error_describes_itself() {
    let e = InitializationError::message_only("bad value".to_string());
    assert_eq!(e.describe(), "bad value");
    assert_eq!(e.description(), "initialization failed");
    let e = InitializationError::new("REOOL_X".to_string(), Some("not a number".to_string()));
    assert_eq!(e.describe(), "REOOL_X: not a number");
    let e = InitializationError::cause_only("io".to_string());
    assert_eq!(e.describe(), "initialization failed: io");
}

#[test]
fn string_vec_clone_keeps_text() {
    let v = vec!["a".to_string(), "bc".to_string()];
    assert_eq!(clone_string_vec(&v), v);
}
