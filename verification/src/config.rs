//! Per-node scheduling policy: how many attempts a node step may take in
//! all, and how many seconds each attempt may run before it is cut off.

use vstd::prelude::*;

verus! {

/// Configuration for one node's scheduling.
///
/// `max_retries` is the total attempt count, inclusive of the first
/// attempt: a value of 1 disables retry. `timeout` is the per-attempt
/// deadline in seconds.
#[derive(Debug, Clone, Copy, PartialEq, Eq, Structural)]
pub struct NodeConfig {
    /// Maximum number of attempts for node execution.
    pub max_retries: usize,
    /// Timeout for one attempt, in seconds.
    pub timeout: u64,
}

/// The configuration a node gets when none is set: three attempts,
/// thirty seconds each.
pub open spec fn spec_default_config() -> NodeConfig {
    NodeConfig { max_retries: 3, timeout: 30 }
}

impl Default for NodeConfig {
    fn default() -> (r: Self)
        ensures
            r == spec_default_config(),
    {
        NodeConfig { max_retries: 3, timeout: 30 }
    }
}

/// Builder for a node configuration.
#[derive(Debug, Clone, Copy)]
pub struct NodeConfigBuilder {
    config: NodeConfig,
}

impl NodeConfigBuilder {
    /// Spec-level access to the configuration being built.
    pub closed spec fn spec_config(&self) -> NodeConfig {
        self.config
    }

    /// Starts from the default configuration.
    pub fn new() -> (r: Self)
        ensures
            r.spec_config() == spec_default_config(),
    {
        NodeConfigBuilder { config: NodeConfig { max_retries: 3, timeout: 30 } }
    }

    /// Sets the total attempt count.
    pub fn max_retries(self, retries: usize) -> (r: Self)
        ensures
            r.spec_config() == (NodeConfig { max_retries: retries, ..self.spec_config() }),
    {
        NodeConfigBuilder { config: NodeConfig { max_retries: retries, ..self.config } }
    }

    /// Sets the per-attempt timeout in seconds.
    pub fn timeout(self, seconds: u64) -> (r: Self)
        ensures
            r.spec_config() == (NodeConfig { timeout: seconds, ..self.spec_config() }),
    {
        NodeConfigBuilder { config: NodeConfig { timeout: seconds, ..self.config } }
    }

    /// Hands out the finished configuration.
    pub fn build(self) -> (r: NodeConfig)
        ensures
            r == self.spec_config(),
    {
        self.config
    }
}

} // verus!
