use jaeger_client_rust::{Codec, RemoteReporter, SpanContext, TextMap, TraceId, Tracer};
use std::sync::Arc;

#[test]
fn test_extraction() {
    let mut baggage: TextMap<String> = TextMap::new();
    baggage.insert(
        "x-b3-traceid".to_owned(),
        "00000000000000010000000000000002".to_owned(),
    );
    baggage.insert("x-b3-spanid".to_owned(), "0000000000000002".to_owned());

    let span_context = SpanContext::from(baggage);
    let trace_id = span_context
        .trace_id()
        .expect("Trace ID should be extracted");

    assert_eq!(trace_id.low, 2);
    assert_eq!(trace_id.high, 1);
}

#[test]
fn test_injection() {
    let mut span_context = SpanContext::new();
    let trace_id = TraceId { low: 2, high: 1 };
    span_context.set_trace_id(trace_id.clone());
    span_context.set_span_id(5208512171318403364);

    let mut output = TextMap::new();
    let injected = &mut output;
    let reporter = Arc::new(RemoteReporter::new("test".to_owned(), None));
    let _ = Tracer::new(reporter, Codec::ZipkinB3TextMap).inject(&span_context, "header", injected);

    let trace_id_string = output.get("x-b3-traceid").expect("should have trace id");

    assert_eq!(trace_id_string, "10000000000000002");
    assert_eq!(trace_id.high, 1);
}

#[test]
fn test_low_extraction() {
    let mut baggage: TextMap<String> = TextMap::new();
    baggage.insert("x-b3-traceid".to_owned(), "1".to_owned());
    baggage.insert("x-b3-spanid".to_owned(), "1".to_owned());

    let span_context = SpanContext::from(baggage);
    let trace_id = span_context
        .trace_id()
        .expect("Trace ID should be extracted");

    assert_eq!(trace_id.low, 1);
    assert_eq!(trace_id.high, 0);
}
