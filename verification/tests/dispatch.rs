//! The outbound side: a launched manager hands out a dispatch handle whose
//! queue yields, within a bounded time window, one encoded datagram per
//! dropped span, carrying the configured service name and the span's tags.

use jaeger_tracing::{hash_span, ContentHash, Jaeger, JaegerConfig};
use std::time::Duration;

fn hash_with_id_one() -> ContentHash {
    let mut bytes = vec![0u8; 32];
    bytes[15] = 1;
    ContentHash::from_bytes(bytes)
}

fn contains_subslice(haystack: &[u8], needle: &[u8]) -> bool {
    haystack.windows(needle.len()).any(|w| w == needle)
}

fn next_datagram(traces_out: &mut mick_jaeger::TracesOut) -> Vec<u8> {
    futures::executor::block_on(async {
        async_std::future::timeout(Duration::from_secs(5), traces_out.next())
            .await
            .expect("a datagram arrives within the time window")
    })
}

#[test]
fn dropped_span_becomes_a_datagram_with_service_name_and_tag() {
    let mut manager = Jaeger::new(JaegerConfig::builder().named("alice").build());
    let mut handle = manager.launch(true).ok().expect("launch succeeds");

    let mut span = hash_span(&manager, &hash_with_id_one(), "import-block");
    assert_eq!(span.trace_id(), Some(1u128));
    span.add_string_tag("role", "collator");
    drop(span);

    let datagram = next_datagram(&mut handle.traces_out);
    assert!(!datagram.is_empty());
    assert!(contains_subslice(&datagram, b"alice-alice"));
    assert!(contains_subslice(&datagram, b"import-block"));
    assert!(contains_subslice(&datagram, b"role"));
    assert!(contains_subslice(&datagram, b"collator"));
}

#[test]
fn span_requests_keep_succeeding_while_the_queue_is_drained() {
    let mut manager = Jaeger::new(JaegerConfig::builder().named("bob").build());
    let mut handle = manager.launch(true).ok().expect("launch succeeds");

    let first = hash_span(&manager, &hash_with_id_one(), "first-op");
    drop(first);
    let one = next_datagram(&mut handle.traces_out);
    assert!(contains_subslice(&one, b"first-op"));

    let second = hash_span(&manager, &hash_with_id_one(), "second-op");
    assert!(second.is_enabled());
    drop(second);
    let two = next_datagram(&mut handle.traces_out);
    assert!(contains_subslice(&two, b"second-op"));
}

#[test]
fn children_and_parents_report_into_the_same_trace() {
    let mut manager = Jaeger::new(JaegerConfig::builder().named("carol").build());
    let mut handle = manager.launch(true).ok().expect("launch succeeds");

    let span = hash_span(&manager, &hash_with_id_one(), "parent-op");
    let child = span.child("child-op");
    assert_eq!(child.trace_id(), span.trace_id());
    drop(child);
    drop(span);

    let first = next_datagram(&mut handle.traces_out);
    assert!(contains_subslice(&first, b"child-op"));
}
