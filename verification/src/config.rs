//! Configuration for the tracing subsystem: a human-readable node name and
//! the collector address, built through a staged builder with defaults.

use vstd::prelude::*;
use vstd::string::StringExecFns;

verus! {

/// The network address of the trace collector, as plain values: the four
/// octets of an IPv4 address (leftmost first) and a UDP port.
#[derive(Clone, Copy, Debug, PartialEq, Eq, Structural)]
pub struct AgentAddr {
    /// First (leftmost) octet of the IPv4 address.
    pub a: u8,
    /// Second octet.
    pub b: u8,
    /// Third octet.
    pub c: u8,
    /// Fourth octet.
    pub d: u8,
    /// The UDP port.
    pub port: u16,
}

/// The default collector address, 127.0.0.1:6831.
pub open spec fn default_agent_addr() -> AgentAddr {
    AgentAddr { a: 127, b: 0, c: 0, d: 1, port: 6831 }
}

/// Immutable configuration for the tracing subsystem. Constructed once at
/// startup and consumed by the lifecycle manager when it launches.
#[derive(Clone)]
pub struct JaegerConfig {
    /// The name this node reports to the collector.
    pub node_name: String,
    /// The address the collected spans are sent to.
    pub agent_addr: AgentAddr,
}

impl Default for JaegerConfig {
    /// The default configuration: node name `"unknown_"`, collector at
    /// 127.0.0.1:6831.
    fn default() -> (r: Self)
        ensures
            r.node_name@ == "unknown_"@,
            r.agent_addr == default_agent_addr(),
    {
        JaegerConfig {
            node_name: String::from_str("unknown_"),
            agent_addr: AgentAddr { a: 127, b: 0, c: 0, d: 1, port: 6831 },
        }
    }
}

impl JaegerConfig {
    /// Use the builder pattern to construct a configuration.
    pub fn builder() -> (r: JaegerConfigBuilder)
        ensures
            r.inner.node_name@ == "unknown_"@,
            r.inner.agent_addr == default_agent_addr(),
    {
        JaegerConfigBuilder::default()
    }
}

/// Staged configuration builder: starts from the defaults, lets each field
/// be overridden, and finalizes into a `JaegerConfig`.
pub struct JaegerConfigBuilder {
    /// The configuration assembled so far.
    pub inner: JaegerConfig,
}

impl Default for JaegerConfigBuilder {
    /// A builder holding the default configuration.
    fn default() -> (r: Self)
        ensures
            r.inner.node_name@ == "unknown_"@,
            r.inner.agent_addr == default_agent_addr(),
    {
        JaegerConfigBuilder { inner: JaegerConfig::default() }
    }
}

impl JaegerConfigBuilder {
    /// Set the name for this node.
    pub fn named(self, name: &str) -> (r: Self)
        ensures
            r.inner.node_name@ == name@,
            r.inner.agent_addr == self.inner.agent_addr,
    {
        JaegerConfigBuilder {
            inner: JaegerConfig { node_name: String::from_str(name), agent_addr: self.inner.agent_addr },
        }
    }

    /// Set the agent address to send the collected spans to.
    pub fn agent(self, addr: AgentAddr) -> (r: Self)
        ensures
            r.inner.agent_addr == addr,
            r.inner.node_name@ == self.inner.node_name@,
    {
        JaegerConfigBuilder {
            inner: JaegerConfig { node_name: self.inner.node_name, agent_addr: addr },
        }
    }

    /// Construct the configuration.
    pub fn build(self) -> (r: JaegerConfig)
        ensures
            r == self.inner,
    {
        self.inner
    }
}

} // verus!
