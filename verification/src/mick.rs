//! Trusted bindings to the `mick_jaeger` client crate.
//!
//! `mick_jaeger` owns the wire encoding of span records and the in-process
//! queue between span producers and the background sender. Its values are
//! opaque here: the library tracks alongside them, as plain values, the one
//! thing its logic reads — the trace identifier a span was created with.

use std::sync::Arc;
use vstd::prelude::*;

verus! {

#[verifier::external_type_specification]
#[verifier::external_body]
pub struct ExTracesIn(mick_jaeger::TracesIn);

#[verifier::external_type_specification]
#[verifier::external_body]
pub struct ExTracesOut(mick_jaeger::TracesOut);

#[verifier::external_type_specification]
#[verifier::external_body]
pub struct ExSpan(mick_jaeger::Span);

/// Relies on `mick_jaeger::init`: purely in-memory construction of the
/// producer/consumer pair around a bounded channel; no I/O. When the channel
/// is full, further span records are silently dropped, never blocking the
/// producers. The service name reported to the collector is the node name
/// joined to itself with a dash.
#[verifier::external_body]
pub(crate) fn init_traces(node_name: &str) -> (r: (
    Arc<mick_jaeger::TracesIn>,
    mick_jaeger::TracesOut,
))
{
    mick_jaeger::init(mick_jaeger::Config {
        service_name: format!("{}-{}", node_name, node_name),
    })
}

/// Relies on `mick_jaeger::TracesIn::span`: builds a span bound to the given
/// trace id and operation name. The id is converted to `NonZeroU128` here,
/// so zero is excluded. (The callee draws a random span id and, with
/// negligible probability, panics if the draw is zero; that draw does not
/// depend on these arguments.)
#[verifier::external_body]
pub(crate) fn new_span(
    traces_in: &Arc<mick_jaeger::TracesIn>,
    trace_id: u128,
    name: &str,
) -> (r: mick_jaeger::Span)
    requires
        trace_id != 0,
{
    traces_in.span(std::num::NonZeroU128::new(trace_id).unwrap(), name)
}

/// Relies on `mick_jaeger::Span::child`: builds a new span whose `trace_id`
/// field is copied from the parent, linking the child into the same trace.
#[verifier::external_body]
pub(crate) fn child_span(span: &mick_jaeger::Span, name: &str) -> (r: mick_jaeger::Span) {
    span.child(name)
}

/// Relies on `mick_jaeger::Span::add_string_tag`: appends one key/value tag
/// to the span's tag list. The effect is observable only at the collector.
#[verifier::external_body]
pub(crate) fn add_span_tag(span: &mut mick_jaeger::Span, key: &str, value: &str) {
    span.add_string_tag(key, value)
}

} // verus!
