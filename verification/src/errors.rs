//! Errors surfaced by the tracing lifecycle manager.

use vstd::prelude::*;

verus! {

/// An error of the tracing subsystem. The first three variants are returned
/// synchronously by `launch`; `SendError` describes a single failed datagram
/// write and never propagates past the background sender.
#[derive(Clone, Copy, Debug, PartialEq, Eq, Structural)]
pub enum JaegerError {
    /// `launch` was invoked while the manager was already launched.
    AlreadyLaunched,
    /// `launch` was invoked before any configuration was supplied.
    MissingConfiguration,
    /// Every port of the local scan range was tried and none could be bound.
    PortAllocationError,
    /// A single datagram write to the collector address failed.
    SendError,
}

} // verus!
