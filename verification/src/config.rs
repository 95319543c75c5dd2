use vstd::prelude::*;

use crate::activation_order::ActivationOrder;
use crate::backoff_strategy::BackoffStrategy;
use crate::error::{InitializationError, InitializationResult};

verus! {

/// How the client lays pools over the nodes it connects to.
#[derive(Debug, Clone, Copy, PartialEq, Eq, Structural)]
pub enum NodePoolStrategy {
    /// One pool whose connections are spread over all nodes.
    SharedPool,
    /// One pool per node; checkouts go round robin over the pools.
    PoolPerNode,
}

/// Reads a node-pool strategy from its configuration value. Exactly
/// `"SharedPool"` and `"PoolPerNode"` are accepted.
pub fn parse_node_pool_strategy(s: &str) -> (r: Result<NodePoolStrategy, ()>)
    ensures
        r == (if s@ == "SharedPool"@ {
            Ok::<NodePoolStrategy, ()>(NodePoolStrategy::SharedPool)
        } else if s@ == "PoolPerNode"@ {
            Ok::<NodePoolStrategy, ()>(NodePoolStrategy::PoolPerNode)
        } else {
            Err::<NodePoolStrategy, ()>(())
        }),
{
    let owned = s.to_owned();
    if owned == String::from_str("SharedPool") {
        Ok(NodePoolStrategy::SharedPool)
    } else if owned == String::from_str("PoolPerNode") {
        Ok(NodePoolStrategy::PoolPerNode)
    } else {
        Err(())
    }
}

/// The configuration of the whole client.
#[derive(Debug)]
pub struct Config {
    /// The number of connections each pool strives to keep.
    pub desired_pool_size: usize,
    /// The default deadline for a checkout that has to wait; `None`
    /// waits indefinitely.
    pub checkout_timeout_ms: Option<u64>,
    /// How long to wait between failed connection attempts.
    pub backoff_strategy: BackoffStrategy,
    /// When set, the inclusive bound on enqueued checkouts per pool.
    pub reservation_limit: Option<usize>,
    /// In which order idle connections are drained.
    pub activation_order: ActivationOrder,
    /// The minimum gap between two stats emissions.
    pub stats_interval_ms: u64,
    /// How many nodes must at least be configured.
    pub min_required_nodes: usize,
    /// The URIs of the nodes to connect to.
    pub connect_to_nodes: Vec<String>,
    /// With the pool-per-node strategy, how many pools serve each
    /// node. Must be at least 1.
    pub pool_per_node_multiplier: usize,
    /// How pools are laid over the nodes.
    pub node_pool_strategy: NodePoolStrategy,
}

/// The fields every fresh configuration and builder starts from.
pub open spec fn spec_default_config(c: Config) -> bool {
    &&& c.desired_pool_size == 20
    &&& c.checkout_timeout_ms == Some(20u64)
    &&& c.backoff_strategy == (BackoffStrategy::Constant { delay_ms: 100 })
    &&& c.reservation_limit == Some(50usize)
    &&& c.activation_order == ActivationOrder::LiFo
    &&& c.stats_interval_ms == 100
    &&& c.min_required_nodes == 0
    &&& c.connect_to_nodes@ == Seq::<String>::empty()
    &&& c.pool_per_node_multiplier == 1
    &&& c.node_pool_strategy == NodePoolStrategy::SharedPool
}

impl Default for Config {
    /// The library's defaults: 20 connections per pool, a 20 ms
    /// checkout deadline, a constant backoff of 100 ms, at most 50
    /// reservations, newest-first activation, stats every 100 ms, no
    /// required node count, nothing to connect to yet, one pool per
    /// node, and one shared pool.
    fn default() -> (r: Self)
        ensures
            spec_default_config(r),
    {
        Config {
            desired_pool_size: 20,
            checkout_timeout_ms: Some(20),
            backoff_strategy: BackoffStrategy::Constant { delay_ms: 100 },
            reservation_limit: Some(50),
            activation_order: ActivationOrder::LiFo,
            stats_interval_ms: 100,
            min_required_nodes: 0,
            connect_to_nodes: Vec::new(),
            pool_per_node_multiplier: 1,
            node_pool_strategy: NodePoolStrategy::SharedPool,
        }
    }
}

/// Collects configuration values before the pool is created. Every
/// setter replaces one field; `finish` checks what initialization must
/// refuse.
#[derive(Debug)]
pub struct Builder {
    config: Config,
}

impl Builder {
    /// The configuration collected so far.
    pub closed spec fn spec_config(&self) -> Config {
        self.config
    }

    pub fn desired_pool_size(self, v: usize) -> (r: Self)
        ensures
            r.spec_config() == (Config { desired_pool_size: v, ..self.spec_config() }),
    {
        Builder { config: Config { desired_pool_size: v, ..self.config } }
    }

    pub fn checkout_timeout(self, v: Option<u64>) -> (r: Self)
        ensures
            r.spec_config() == (Config { checkout_timeout_ms: v, ..self.spec_config() }),
    {
        Builder { config: Config { checkout_timeout_ms: v, ..self.config } }
    }

    pub fn backoff_strategy(self, v: BackoffStrategy) -> (r: Self)
        ensures
            r.spec_config() == (Config { backoff_strategy: v, ..self.spec_config() }),
    {
        Builder { config: Config { backoff_strategy: v, ..self.config } }
    }

    pub fn reservation_limit(self, v: Option<usize>) -> (r: Self)
        ensures
            r.spec_config() == (Config { reservation_limit: v, ..self.spec_config() }),
    {
        Builder { config: Config { reservation_limit: v, ..self.config } }
    }

    pub fn activation_order(self, v: ActivationOrder) -> (r: Self)
        ensures
            r.spec_config() == (Config { activation_order: v, ..self.spec_config() }),
    {
        Builder { config: Config { activation_order: v, ..self.config } }
    }

    pub fn stats_interval(self, v: u64) -> (r: Self)
        ensures
            r.spec_config() == (Config { stats_interval_ms: v, ..self.spec_config() }),
    {
        Builder { config: Config { stats_interval_ms: v, ..self.config } }
    }

    pub fn min_required_nodes(self, v: usize) -> (r: Self)
        ensures
            r.spec_config() == (Config { min_required_nodes: v, ..self.spec_config() }),
    {
        Builder { config: Config { min_required_nodes: v, ..self.config } }
    }

    pub fn connect_to_nodes(self, v: Vec<String>) -> (r: Self)
        ensures
            r.spec_config() == (Config { connect_to_nodes: v, ..self.spec_config() }),
    {
        Builder { config: Config { connect_to_nodes: v, ..self.config } }
    }

    pub fn pool_per_node_multiplier(self, v: usize) -> (r: Self)
        ensures
            r.spec_config() == (Config { pool_per_node_multiplier: v, ..self.spec_config() }),
    {
        Builder { config: Config { pool_per_node_multiplier: v, ..self.config } }
    }

    pub fn node_pool_strategy(self, v: NodePoolStrategy) -> (r: Self)
        ensures
            r.spec_config() == (Config { node_pool_strategy: v, ..self.spec_config() }),
    {
        Builder { config: Config { node_pool_strategy: v, ..self.config } }
    }

    /// Hands the configuration out when it can initialize a pool: the
    /// pool size and the multiplier must not be zero, there must be
    /// something to connect to, and at least the required number of
    /// nodes.
    pub fn finish(self) -> (r: InitializationResult<Config>)
        ensures
            match r {
                Ok(c) => {
                    &&& c == self.spec_config()
                    &&& c.desired_pool_size >= 1
                    &&& c.pool_per_node_multiplier >= 1
                    &&& c.connect_to_nodes.len() >= 1
                    &&& c.connect_to_nodes.len() >= c.min_required_nodes
                },
                Err(e) => {
                    &&& {
                        ||| self.spec_config().desired_pool_size == 0
                        ||| self.spec_config().pool_per_node_multiplier == 0
                        ||| self.spec_config().connect_to_nodes.len() == 0
                        ||| self.spec_config().connect_to_nodes.len()
                            < self.spec_config().min_required_nodes
                    }
                    &&& e.spec_message() == Some(
                        if self.spec_config().desired_pool_size == 0 {
                            "'desired_pool_size' must be at least 1"@
                        } else if self.spec_config().pool_per_node_multiplier == 0 {
                            "pool_per_node_multiplier may not be zero"@
                        } else if self.spec_config().connect_to_nodes.len() == 0 {
                            "there is nothing to connect to."@
                        } else {
                            "fewer nodes are configured than required"@
                        },
                    )
                },
            },
    {
        if self.config.desired_pool_size == 0 {
            Err(
                InitializationError::message_only(
                    String::from_str("'desired_pool_size' must be at least 1"),
                ),
            )
        } else if self.config.pool_per_node_multiplier == 0 {
            Err(
                InitializationError::message_only(
                    String::from_str("pool_per_node_multiplier may not be zero"),
                ),
            )
        } else if self.config.connect_to_nodes.len() == 0 {
            Err(
                InitializationError::message_only(
                    String::from_str("there is nothing to connect to."),
                ),
            )
        } else if self.config.connect_to_nodes.len() < self.config.min_required_nodes {
            Err(
                InitializationError::message_only(
                    String::from_str("fewer nodes are configured than required"),
                ),
            )
        } else {
            Ok(self.config)
        }
    }
}

impl Default for Builder {
    /// A builder that starts from the default configuration.
    fn default() -> (r: Self)
        ensures
            spec_default_config(r.spec_config()),
    {
        Builder { config: Config::default() }
    }
}

} // verus!
