//! The span handle: a two-variant value that is either an active span or a
//! no-op, with identical call signatures in both states.
//!
//! Every call site that wants to be traced can call these methods
//! unconditionally: when tracing is disabled the handle is inactive and the
//! calls have no observable effect, so the absence of tracing never affects
//! program behavior.

use crate::mick;
use vstd::prelude::*;

verus! {

/// A wrapper type for a span. Handles running with and without tracing.
pub enum JaegerSpan {
    /// Running with tracing enabled: a live client span together with the
    /// trace identifier it was created with, which every child shares.
    Enabled {
        /// The live client span; opaque, its record is emitted when dropped.
        inner: mick_jaeger::Span,
        /// The trace identifier the span is bound to.
        trace_id: u128,
    },
    /// Running with tracing disabled.
    Disabled,
}

impl View for JaegerSpan {
    type V = Option<u128>;

    /// The observable state of a handle: the trace identifier when active,
    /// nothing when inactive.
    open spec fn view(&self) -> Option<u128> {
        match self {
            JaegerSpan::Enabled { inner: _, trace_id } => Some(*trace_id),
            JaegerSpan::Disabled => None,
        }
    }
}

impl JaegerSpan {
    /// An active handle is bound to a non-zero trace identifier.
    pub open spec fn wf(&self) -> bool {
        self@ matches Some(id) ==> id != 0
    }

    /// Derive a child span from `self`, for a sub-operation. The variant is
    /// preserved: a child of an inactive handle is inactive, a child of an
    /// active handle is active and shares the parent's trace identifier.
    pub fn child(&self, name: &str) -> (r: Self)
        ensures
            r@ == self@,
    {
        match self {
            JaegerSpan::Enabled { inner, trace_id } => JaegerSpan::Enabled {
                inner: mick::child_span(inner, name),
                trace_id: *trace_id,
            },
            JaegerSpan::Disabled => JaegerSpan::Disabled,
        }
    }

    /// Add an additional string tag to the span. A no-op on an inactive
    /// handle; on an active handle the effect is purely observational,
    /// visible only at the collector — the observable state of the handle
    /// never changes and no error is ever raised.
    pub fn add_string_tag(&mut self, tag: &str, value: &str)
        ensures
            final(self)@ == old(self)@,
    {
        match self {
            JaegerSpan::Enabled { inner, trace_id: _ } => mick::add_span_tag(inner, tag, value),
            JaegerSpan::Disabled => {},
        }
    }

    /// The trace identifier of an active handle, or nothing.
    pub fn trace_id(&self) -> (r: Option<u128>)
        ensures
            r == self@,
    {
        match self {
            JaegerSpan::Enabled { inner: _, trace_id } => Some(*trace_id),
            JaegerSpan::Disabled => None,
        }
    }

    /// Whether the handle is active.
    pub fn is_enabled(&self) -> (r: bool)
        ensures
            r == (self@ is Some),
    {
        match self {
            JaegerSpan::Enabled { inner: _, trace_id: _ } => true,
            JaegerSpan::Disabled => false,
        }
    }
}

} // verus!
