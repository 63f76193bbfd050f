use jaeger_client_rust::{
    Codec, Error, Extractor, Injector, RemoteReporter, SpanContext, TextMap, TraceId, Tracer,
};
use std::sync::Arc;

fn carrier(entries: &[(&str, &str)]) -> TextMap<String> {
    let mut map = TextMap::new();
    for (key, value) in entries {
        map.insert((*key).to_owned(), (*value).to_owned());
    }
    map
}

fn tracer() -> Tracer {
    let reporter = Arc::new(RemoteReporter::new("propagation".to_owned(), None));
    Tracer::new(reporter, Codec::ZipkinB3TextMap)
}

#[test]
fn extract_takes_the_seven_headers_and_no_others() {
    let headers = carrier(&[
        ("content-type", "text/plain"),
        ("x-request-id", "r"),
        ("x-b3-traceid", "463ac35c9f6413ad48485a3953bb6124"),
        ("x-b3-spanid", "48485a3953bb6124"),
        ("x-b3-parentspanid", "1"),
        ("x-b3-sampled", "1"),
        ("x-b3-flags", "1"),
        ("x-ot-span-context", "c"),
        ("X-B3-TraceId", "ff"),
        ("x-b3-other", "o"),
    ]);
    let context = Extractor::extract(&Codec::ZipkinB3TextMap, &headers).expect("a context");
    assert_eq!(context.baggage().len(), 7);
    assert_eq!(context.get("x-request-id"), Some(&"r".to_owned()));
    assert_eq!(context.get("x-ot-span-context"), Some(&"c".to_owned()));
    assert_eq!(context.get("content-type"), None);
    assert_eq!(context.get("X-B3-TraceId"), None);
    assert_eq!(context.get("x-b3-other"), None);
    assert_eq!(
        context.trace_id(),
        Some(TraceId { low: 0x48485a3953bb6124, high: 0x463ac35c9f6413ad })
    );
    assert_eq!(context.span_id(), Some(0x48485a3953bb6124));
    assert_eq!(context.parent_span_id(), Some(1));
    assert_eq!(context.sampled(), Some(true));
    assert_eq!(context.flags(), Some(1));
}

#[test]
fn extract_without_known_headers_gives_no_context() {
    let headers = carrier(&[("content-type", "text/plain"), ("accept", "*/*")]);
    assert!(Extractor::extract(&Codec::ZipkinB3TextMap, &headers).is_none());
    assert!(Extractor::extract(&Codec::ZipkinB3TextMap, &TextMap::new()).is_none());
}

#[test]
fn extract_with_one_known_header_gives_a_context() {
    let headers = carrier(&[("x-request-id", "r")]);
    let context = Extractor::extract(&Codec::ZipkinB3TextMap, &headers).expect("a context");
    assert_eq!(context.baggage().len(), 1);
    assert_eq!(context.trace_id(), None);
}

#[test]
fn inject_writes_the_whole_baggage() {
    let mut context = SpanContext::with_id(0x11);
    context.set("custom-key".to_owned(), "kept".to_owned());
    let mut out = carrier(&[("x-b3-spanid", "old"), ("accept", "*/*")]);
    Injector::inject(&Codec::ZipkinB3TextMap, &context, &mut out);
    assert_eq!(out.get("x-b3-traceid"), Some(&"11".to_owned()));
    assert_eq!(out.get("x-b3-spanid"), Some(&"11".to_owned()));
    assert_eq!(out.get("custom-key"), Some(&"kept".to_owned()));
    assert_eq!(out.get("accept"), Some(&"*/*".to_owned()));
    assert_eq!(out.len(), 4);
}

#[test]
fn injected_context_is_extracted_again() {
    let mut context = SpanContext::with_id(0x11);
    context.set_trace_id(TraceId { low: 2, high: 1 });
    context.set_parent_span_id(3);
    context.set_sampled(false);
    let mut wire = TextMap::new();
    let tracer = tracer();
    assert_eq!(tracer.inject(&context, "headers", &mut wire), Ok(()));
    let back = tracer.extract("headers", &wire).expect("a context");
    assert_eq!(back.trace_id(), Some(TraceId { low: 2, high: 1 }));
    assert_eq!(back.span_id(), Some(0x11));
    assert_eq!(back.parent_span_id(), Some(3));
    assert_eq!(back.sampled(), Some(false));
}

#[test]
fn tracer_serves_the_text_map_formats() {
    let codec = Codec::ZipkinB3TextMap;
    assert!(codec.serves("header"));
    assert!(codec.serves("headers"));
    assert!(codec.serves("http_headers"));
    assert!(codec.serves("text_map"));
    assert!(!codec.serves("binary"));
    assert!(!codec.serves("Headers"));
    assert!(!codec.serves(""));
}

#[test]
fn tracer_inject_refuses_an_unknown_format() {
    let context = SpanContext::with_id(1);
    let mut out = carrier(&[("accept", "*/*")]);
    let result = tracer().inject(&context, "binary", &mut out);
    assert_eq!(result, Err(Error::NoInjectorFound));
    assert_eq!(out.len(), 1);
    assert_eq!(out.get("x-b3-traceid"), None);
}

#[test]
fn tracer_extract_refuses_an_unknown_format() {
    let headers = carrier(&[("x-b3-traceid", "1"), ("x-b3-spanid", "1")]);
    assert_eq!(
        tracer().extract("binary", &headers).err(),
        Some(Error::NoExtractorFound)
    );
}

#[test]
fn tracer_extract_tells_no_context_from_a_malformed_one() {
    let tracer = tracer();
    let none = carrier(&[("accept", "*/*")]);
    assert_eq!(tracer.extract("headers", &none).err(), Some(Error::UnableToExtract));
    let bad_trace = carrier(&[("x-b3-traceid", "oops"), ("x-b3-spanid", "1")]);
    assert_eq!(
        tracer.extract("headers", &bad_trace).err(),
        Some(Error::MalformedContext)
    );
    let bad_span = carrier(&[("x-b3-traceid", "1"), ("x-b3-spanid", "")]);
    assert_eq!(
        tracer.extract("headers", &bad_span).err(),
        Some(Error::MalformedContext)
    );
    let bad_parent = carrier(&[
        ("x-b3-traceid", "1"),
        ("x-b3-spanid", "1"),
        ("x-b3-parentspanid", "-"),
    ]);
    assert_eq!(
        tracer.extract("headers", &bad_parent).err(),
        Some(Error::MalformedContext)
    );
}

#[test]
fn tracer_extract_gives_the_context() {
    let headers = carrier(&[
        ("x-b3-traceid", "463ac35c9f6413ad48485a3953bb6124"),
        ("x-b3-spanid", "48485a3953bb6124"),
        ("x-b3-flags", "1"),
        ("accept", "*/*"),
    ]);
    let context = tracer().extract("headers", &headers).expect("a context");
    assert_eq!(context.baggage().len(), 3);
    assert_eq!(context.span_id(), Some(0x48485a3953bb6124));
}

#[test]
fn tracer_extract_accepts_a_context_without_ids() {
    let headers = carrier(&[("x-request-id", "r"), ("x-b3-sampled", "maybe")]);
    let context = tracer().extract("text_map", &headers).expect("a context");
    assert_eq!(context.trace_id(), None);
    assert_eq!(context.sampled(), None);
}

#[test]
fn parent_context_from_request_headers() {
    let tracer = tracer();
    let context = tracer
        .parent_span_context(vec![
            ("accept".to_owned(), "*/*".to_owned()),
            ("x-b3-traceid".to_owned(), "a".to_owned()),
            ("x-b3-spanid".to_owned(), "b".to_owned()),
            ("x-b3-spanid".to_owned(), "c".to_owned()),
        ])
        .expect("a context");
    assert_eq!(context.trace_id(), Some(TraceId { low: 10, high: 0 }));
    assert_eq!(context.span_id(), Some(12));
    assert!(tracer
        .parent_span_context(vec![("accept".to_owned(), "*/*".to_owned())])
        .is_none());
    assert!(tracer
        .parent_span_context(vec![("x-b3-traceid".to_owned(), "?".to_owned())])
        .is_none());
}

#[test]
fn injected_headers_win_over_what_the_carrier_had() {
    let mut context = SpanContext::with_id(0x11);
    context.set_sampled(true);
    let mut wire = carrier(&[("x-b3-sampled", "0"), ("x-b3-flags", "1"), ("x-b3-spanid", "99")]);
    Injector::inject(&Codec::ZipkinB3TextMap, &context, &mut wire);
    let back = Extractor::extract(&Codec::ZipkinB3TextMap, &wire).expect("a context");
    assert_eq!(back.sampled(), Some(true));
    assert_eq!(back.span_id(), Some(0x11));
    assert_eq!(back.flags(), Some(1));
}
