//! The collector lifecycle manager: a state machine
//! (uninitialized → configured → launched) that owns the outbound producer
//! handle and answers "create a span for this trace id" requests.
//!
//! Everything the launch step needs from the network — binding a local UDP
//! socket and running the background send loop — is I/O and stays with the
//! caller: the manager takes the outcome of the bind scan as an argument and
//! hands back, on success, the consumer half of the span queue together with
//! the collector address, for the caller's background task to drain.

use crate::config::{AgentAddr, JaegerConfig};
use crate::errors::JaegerError;
use crate::hashing::{derive_trace_id, trace_id_of, CandidateHash, ContentHash, PoV};
use crate::hashing::blake2_256_of;
use crate::mick;
use crate::span::JaegerSpan;
use std::sync::Arc;
use vstd::prelude::*;

verus! {

/// The first local UDP port the launch step tries to bind.
pub const BASE_PORT: u16 = 49000;

/// The bind scan policy: the next local port to probe after `port` failed to
/// bind, or nothing once the 16-bit port space above the base port is
/// exhausted.
pub fn next_probe_port(port: u16) -> (r: Option<u16>)
    ensures
        port < 65534 ==> r == Some((port + 1) as u16),
        port >= 65534 ==> r is None,
{
    if port < 65534 {
        Some(port + 1)
    } else {
        None
    }
}

/// What the background sender is handed on a successful launch: the consumer
/// half of the span queue and the collector address every datagram goes to.
pub struct DispatchHandle {
    /// Yields one encoded span datagram at a time; opaque here.
    pub traces_out: mick_jaeger::TracesOut,
    /// The destination of every datagram.
    pub agent_addr: AgentAddr,
}

/// The reported stage of the lifecycle state machine.
#[derive(Clone, Copy, Debug, PartialEq, Eq, Structural)]
pub enum LifecycleStage {
    /// No configuration present.
    Uninitialized,
    /// A configuration is held; launch has not run.
    Configured,
    /// Launched; terminal.
    Launched,
}

/// Stateful lifecycle manager around the span producer.
pub enum Jaeger {
    /// Launched and operational state.
    Launched {
        /// Producer handle shared by every active span and, through the
        /// queue behind it, the background sender.
        traces_in: Arc<mick_jaeger::TracesIn>,
    },
    /// Preparation state with the necessary config to launch the collector.
    Prep(JaegerConfig),
    /// Uninitialized; suggests wrong API usage if launched from here.
    Uninitialized,
}

impl Jaeger {
    /// The manager is in the launched state.
    pub open spec fn is_launched(&self) -> bool {
        self is Launched
    }

    /// The manager holds a configuration and has not launched.
    pub open spec fn is_configured(&self) -> bool {
        self is Prep
    }

    /// The manager holds nothing.
    pub open spec fn is_uninitialized(&self) -> bool {
        self is Uninitialized
    }

    /// The held configuration, in the configured state.
    pub open spec fn spec_config(&self) -> JaegerConfig
        recommends
            self is Prep,
    {
        self->Prep_0
    }

    /// Store the configuration to launch with; performs no I/O.
    pub fn new(cfg: JaegerConfig) -> (r: Self)
        ensures
            r.is_configured(),
            r.spec_config() == cfg,
    {
        Jaeger::Prep(cfg)
    }

    /// The manager before any configuration: every span request yields an
    /// inactive span and `launch` fails with `MissingConfiguration`.
    pub fn uninitialized() -> (r: Self)
        ensures
            r.is_uninitialized(),
    {
        Jaeger::Uninitialized
    }

    /// The reported stage of the state machine.
    pub fn stage(&self) -> (r: LifecycleStage)
        ensures
            (r == LifecycleStage::Launched) == self.is_launched(),
            (r == LifecycleStage::Configured) == self.is_configured(),
            (r == LifecycleStage::Uninitialized) == self.is_uninitialized(),
    {
        match self {
            Jaeger::Launched { traces_in: _ } => LifecycleStage::Launched,
            Jaeger::Prep(_) => LifecycleStage::Configured,
            Jaeger::Uninitialized => LifecycleStage::Uninitialized,
        }
    }

    /// Attempt the one-way transition configured → launched.
    ///
    /// `socket_bound` is the outcome of the caller's local bind scan (see
    /// `BASE_PORT` and `next_probe_port`): binding a socket is network I/O
    /// and happens outside this library. The transition succeeds only from
    /// the configured state and only when a socket was bound; every failure
    /// leaves the state unchanged, so launching twice errors with
    /// `AlreadyLaunched`, launching unconfigured with
    /// `MissingConfiguration`, and an exhausted bind scan with
    /// `PortAllocationError`. On success the caller receives the dispatch
    /// handle for the background sender.
    pub fn launch(&mut self, socket_bound: bool) -> (r: Result<DispatchHandle, JaegerError>)
        ensures
            old(self).is_uninitialized() ==> r is Err
                && r->Err_0 == JaegerError::MissingConfiguration
                && final(self).is_uninitialized(),
            old(self).is_launched() ==> r is Err
                && r->Err_0 == JaegerError::AlreadyLaunched
                && *final(self) == *old(self),
            old(self).is_configured() && !socket_bound ==> r is Err
                && r->Err_0 == JaegerError::PortAllocationError
                && *final(self) == *old(self),
            old(self).is_configured() && socket_bound ==> r is Ok
                && final(self).is_launched()
                && r->Ok_0.agent_addr == old(self).spec_config().agent_addr,
    {
        let mut taken = Jaeger::Uninitialized;
        core::mem::swap(self, &mut taken);
        match taken {
            Jaeger::Prep(cfg) => {
                if socket_bound {
                    let (traces_in, traces_out) = mick::init_traces(cfg.node_name.as_str());
                    *self = Jaeger::Launched { traces_in };
                    Ok(DispatchHandle { traces_out, agent_addr: cfg.agent_addr })
                } else {
                    *self = Jaeger::Prep(cfg);
                    Err(JaegerError::PortAllocationError)
                }
            },
            Jaeger::Launched { traces_in } => {
                *self = Jaeger::Launched { traces_in };
                Err(JaegerError::AlreadyLaunched)
            },
            Jaeger::Uninitialized => Err(JaegerError::MissingConfiguration),
        }
    }

    /// The shared producer handle, available exactly in the launched state.
    fn traces_in(&self) -> (r: Option<&Arc<mick_jaeger::TracesIn>>)
        ensures
            r is Some <==> self.is_launched(),
    {
        match self {
            Jaeger::Launched { traces_in } => Some(traces_in),
            Jaeger::Prep(_) => None,
            Jaeger::Uninitialized => None,
        }
    }

    /// Create a span for the given correlation key and name. When launched,
    /// the span is active and bound to the trace identifier the hash
    /// determines; otherwise the inactive handle comes back and nothing else
    /// happens. A zero identifier is a fatal invariant violation and is
    /// excluded up front — but only a launched manager ever derives one.
    pub fn span(&self, hash: &ContentHash, name: &str) -> (r: JaegerSpan)
        requires
            hash.wf(),
            self.is_launched() ==> trace_id_of(hash@) != 0,
        ensures
            self.is_launched() ==> r@ == Some(trace_id_of(hash@) as u128),
            !self.is_launched() ==> r@ is None,
            r.wf(),
    {
        if let Some(traces_in) = self.traces_in() {
            let trace_id = derive_trace_id(hash);
            let inner = mick::new_span(traces_in, trace_id, name);
            JaegerSpan::Enabled { inner, trace_id }
        } else {
            JaegerSpan::Disabled
        }
    }
}

/// Creates a span referring to the given hash. All spans created with the
/// same hash (even from multiple different nodes) are visible in the same
/// trace view at the collector.
pub fn hash_span(jaeger: &Jaeger, hash: &ContentHash, span_name: &str) -> (r: JaegerSpan)
    requires
        hash.wf(),
        jaeger.is_launched() ==> trace_id_of(hash@) != 0,
    ensures
        jaeger.is_launched() ==> r@ == Some(trace_id_of(hash@) as u128),
        !jaeger.is_launched() ==> r@ is None,
        r.wf(),
{
    jaeger.span(hash, span_name)
}

/// Shortcut for `hash_span` with the hash of the candidate block.
pub fn candidate_hash_span(
    jaeger: &Jaeger,
    candidate_hash: &CandidateHash,
    span_name: &str,
) -> (r: JaegerSpan)
    requires
        candidate_hash.0.wf(),
        jaeger.is_launched() ==> trace_id_of(candidate_hash.0@) != 0,
    ensures
        jaeger.is_launched() ==> r@ == Some(trace_id_of(candidate_hash.0@) as u128),
        !jaeger.is_launched() ==> r@ is None,
        r.wf(),
{
    hash_span(jaeger, &candidate_hash.0, span_name)
}

/// Shortcut for `hash_span` with the hash of the `PoV`, computed on the fly.
/// The practically impossible digest whose leading 16 bytes are all zero is
/// not excluded here: it yields the inactive handle instead.
pub fn pov_span(jaeger: &Jaeger, pov: &PoV, span_name: &str) -> (r: JaegerSpan)
    ensures
        !jaeger.is_launched() ==> r@ is None,
        jaeger.is_launched() && trace_id_of(blake2_256_of(pov.block_data@)) != 0 ==>
            r@ == Some(trace_id_of(blake2_256_of(pov.block_data@)) as u128),
        jaeger.is_launched() && trace_id_of(blake2_256_of(pov.block_data@)) == 0 ==> r@ is None,
        r.wf(),
{
    let hash = pov.hash();
    if hash.leading_nonzero() {
        hash_span(jaeger, &hash, span_name)
    } else {
        JaegerSpan::Disabled
    }
}

} // verus!

