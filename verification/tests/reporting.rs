use jaeger_client_rust::channel::{DatagramBuffer, Flushed, MAX_DATAGRAM_SIZE};
use jaeger_client_rust::config::{
    parse_port, AgentConfig, DEFAULT_AGENT_HOST, DEFAULT_AGENT_PORT, DEFAULT_SERVICE_NAME,
};
use jaeger_client_rust::reporter::{thrift_tag_from, wire_logs_of, wire_span_of, wire_tags_of};
use jaeger_client_rust::wire::{clone_tags, to_wire_long, FloatBits, WireTag, WireValue};
use jaeger_client_rust::{
    Codec, RemoteReporter, Span, SpanContext, TagValue, TextMap, Tracer,
};
use std::sync::Arc;

fn wire_value(value: TagValue) -> WireValue {
    let tag = thrift_tag_from(&"key".to_owned(), &value).expect("every value has a wire tag");
    assert_eq!(tag.key, "key");
    tag.value
}

#[test]
fn unsigned_tag_goes_out_signed() {
    assert_eq!(
        wire_value(TagValue::U64(5_000_000_000)),
        WireValue::Long(5000000000)
    );
}

#[test]
fn large_unsigned_tag_keeps_its_bits() {
    assert_eq!(wire_value(TagValue::U64(u64::MAX)), WireValue::Long(-1));
    assert_eq!(
        wire_value(TagValue::U64(1 << 63)),
        WireValue::Long(i64::MIN)
    );
    assert_eq!(
        wire_value(TagValue::U64(i64::MAX as u64)),
        WireValue::Long(i64::MAX)
    );
}

#[test]
fn unsigned_numbers_go_out_by_their_bits() {
    for value in [0u64, 1, 5_000_000_000, i64::MAX as u64, 1 << 63, u64::MAX - 1, u64::MAX] {
        assert_eq!(to_wire_long(value), value as i64);
    }
}

#[test]
fn text_and_booleans_pass_through() {
    assert_eq!(
        wire_value(TagValue::String("v".to_owned())),
        WireValue::String("v".to_owned())
    );
    assert_eq!(wire_value(TagValue::Boolean(true)), WireValue::Bool(true));
    assert_eq!(wire_value(TagValue::Boolean(false)), WireValue::Bool(false));
}

#[test]
fn every_integer_width_becomes_a_long() {
    assert_eq!(wire_value(TagValue::I8(-8)), WireValue::Long(-8));
    assert_eq!(wire_value(TagValue::I16(-16)), WireValue::Long(-16));
    assert_eq!(wire_value(TagValue::I32(i32::MIN)), WireValue::Long(-2147483648));
    assert_eq!(wire_value(TagValue::I64(i64::MIN)), WireValue::Long(i64::MIN));
    assert_eq!(wire_value(TagValue::U8(255)), WireValue::Long(255));
    assert_eq!(wire_value(TagValue::U16(65535)), WireValue::Long(65535));
    assert_eq!(wire_value(TagValue::U32(u32::MAX)), WireValue::Long(4294967295));
}

#[test]
fn floating_point_becomes_a_double() {
    assert_eq!(
        wire_value(TagValue::F32(1.5f32.to_bits())),
        WireValue::Double(FloatBits::Single(1.5f32.to_bits()))
    );
    assert_eq!(
        wire_value(TagValue::F64(2.25f64.to_bits())),
        WireValue::Double(FloatBits::Double(2.25f64.to_bits()))
    );
}

#[test]
fn tags_go_out_in_the_order_of_the_map() {
    let mut tags: TextMap<TagValue> = TextMap::new();
    tags.insert("b".to_owned(), TagValue::I8(1));
    tags.insert("a".to_owned(), TagValue::I8(2));
    tags.insert("b".to_owned(), TagValue::I8(3));
    assert_eq!(
        wire_tags_of(&tags),
        vec![
            WireTag { key: "b".to_owned(), value: WireValue::Long(3) },
            WireTag { key: "a".to_owned(), value: WireValue::Long(2) },
        ]
    );
}

#[test]
fn logs_go_out_one_for_one() {
    let mut fields: TextMap<TagValue> = TextMap::new();
    fields.insert("k".to_owned(), TagValue::Boolean(true));
    let logs = vec![(7u64, fields), (u64::MAX, TextMap::new())];
    let wire = wire_logs_of(&logs);
    assert_eq!(wire.len(), 2);
    assert_eq!(wire[0].timestamp, 7);
    assert_eq!(
        wire[0].fields,
        vec![WireTag { key: "k".to_owned(), value: WireValue::Bool(true) }]
    );
    assert_eq!(wire[1].timestamp, -1);
    assert!(wire[1].fields.is_empty());
}

#[test]
fn span_without_identity_goes_out_with_zeros() {
    let reporter = Arc::new(RemoteReporter::new("svc".to_owned(), None));
    let mut baggage = TextMap::new();
    baggage.insert("x-b3-traceid".to_owned(), "?".to_owned());
    let span = Span::with_context(SpanContext::from(baggage), 1, &reporter);
    let wire = wire_span_of(&span);
    assert_eq!(wire.trace_id_low, 0);
    assert_eq!(wire.trace_id_high, 0);
    assert_eq!(wire.span_id, 0);
    assert_eq!(wire.parent_span_id, 0);
    assert_eq!(wire.references, None);
    assert_eq!(wire.flags, 0);
}

#[test]
fn reporter_reports_sampled_spans_only() {
    let reporter = Arc::new(RemoteReporter::new("svc".to_owned(), None));
    let tracer = Tracer::new(reporter.clone(), Codec::ZipkinB3TextMap);
    let mut span = tracer.start_span_at("op".to_owned(), None, 10);
    assert!(reporter.report(&span).is_none());
    assert!(tracer.report(&span).is_none());
    span.set_sampled(false);
    assert!(reporter.report(&span).is_none());
    assert!(reporter.batch_for(&span).is_none());
    span.set_sampled(true);
    let batch = reporter.report(&span).expect("a batch");
    assert_eq!(batch.process.service_name, "svc");
    assert_eq!(batch.spans.len(), 1);
    assert_eq!(batch.spans[0].operation_name, "op");
    assert_eq!(batch.spans[0].flags, 1);
    assert!(tracer.report(&span).is_some());
}

#[test]
fn reporter_that_was_shut_down_reports_nothing() {
    let reporter = Arc::new(RemoteReporter::new("svc".to_owned(), None));
    let mut span = Span::with_context(SpanContext::with_id(1), 0, &reporter);
    span.set_sampled(true);
    assert!(reporter.report(&span).is_some());
    reporter.shut_down();
    assert!(reporter.report(&span).is_none());
    assert!(reporter.batch_for(&span).is_some());
}

#[test]
fn cloned_tags_are_equal() {
    let tags = vec![
        WireTag { key: "a".to_owned(), value: WireValue::Long(1) },
        WireTag { key: "b".to_owned(), value: WireValue::String("x".to_owned()) },
    ];
    assert_eq!(clone_tags(&tags), tags);
    assert_eq!(tags[1].clone(), tags[1]);
}

#[test]
fn buffer_gathers_and_flushes_once() {
    let mut buffer = DatagramBuffer::new();
    assert_eq!(buffer.flush(), Flushed::Nothing);
    assert_eq!(buffer.write(&[1, 2]), 2);
    assert_eq!(buffer.write(&[]), 0);
    assert_eq!(buffer.write(&[3]), 1);
    assert_eq!(buffer.flush(), Flushed::Datagram(vec![1, 2, 3]));
    assert_eq!(buffer.flush(), Flushed::Nothing);
}

#[test]
fn buffer_marks_what_is_too_large() {
    let mut buffer = DatagramBuffer::new();
    buffer.write(&vec![7u8; MAX_DATAGRAM_SIZE]);
    match buffer.flush() {
        Flushed::Datagram(bytes) => assert_eq!(bytes.len(), MAX_DATAGRAM_SIZE),
        other => panic!("expected a datagram, got {:?}", other),
    }
    buffer.write(&vec![7u8; MAX_DATAGRAM_SIZE]);
    buffer.write(&[8]);
    match buffer.flush() {
        Flushed::Oversized(bytes) => {
            assert_eq!(bytes.len(), MAX_DATAGRAM_SIZE + 1);
            assert_eq!(bytes[MAX_DATAGRAM_SIZE], 8);
        }
        other => panic!("expected an oversized flush, got {:?}", other),
    }
    assert_eq!(buffer.flush(), Flushed::Nothing);
}

#[test]
fn port_is_decimal_and_fits() {
    assert_eq!(parse_port("6831"), Some(6831));
    assert_eq!(parse_port("0"), Some(0));
    assert_eq!(parse_port("65535"), Some(65535));
    assert_eq!(parse_port("0006831"), Some(6831));
    assert_eq!(parse_port("65536"), None);
    assert_eq!(parse_port("99999999999999999999"), None);
    assert_eq!(parse_port(""), None);
    assert_eq!(parse_port("68a1"), None);
    assert_eq!(parse_port("-1"), None);
    assert_eq!(parse_port("+80"), Some(80));
    assert_eq!(parse_port("+0"), Some(0));
    assert_eq!(parse_port("+65535"), Some(65535));
    assert_eq!(parse_port("+65536"), None);
    assert_eq!(parse_port("+"), None);
    assert_eq!(parse_port("++80"), None);
    assert_eq!(parse_port("8+0"), None);
    assert_eq!(parse_port("+-80"), None);
    assert_eq!(parse_port("+\u{e9}"), None);
    assert_eq!(parse_port(" 1"), None);
    assert_eq!(parse_port("655360x"), None);
}

#[test]
fn config_falls_back_to_defaults() {
    let config = AgentConfig::resolve(None, None, None, None);
    assert_eq!(
        config,
        AgentConfig { service_name: "rust".to_owned(), host: "127.0.0.1".to_owned(), port: 6831 }
    );
    assert_eq!(DEFAULT_AGENT_HOST, "127.0.0.1");
    assert_eq!(DEFAULT_AGENT_PORT, 6831);
    assert_eq!(DEFAULT_SERVICE_NAME, "rust");
}

#[test]
fn config_takes_what_is_given() {
    let config = AgentConfig::resolve(
        Some("agent.local".to_owned()),
        Some("shop".to_owned()),
        Some("shop-bin".to_owned()),
        Some("6832".to_owned()),
    );
    assert_eq!(
        config,
        AgentConfig { service_name: "shop".to_owned(), host: "agent.local".to_owned(), port: 6832 }
    );
}

#[test]
fn config_names_the_service_after_the_executable() {
    let config = AgentConfig::resolve(None, None, Some("shop-bin".to_owned()), Some("x".to_owned()));
    assert_eq!(config.service_name, "shop-bin");
    assert_eq!(config.port, 6831);
}

#[test]
fn report_given_follows_the_flag() {
    let reporter = Arc::new(RemoteReporter::new("svc".to_owned(), None));
    let mut span = Span::with_context(SpanContext::with_id(1), 0, &reporter);
    span.set_sampled(true);
    assert!(reporter.report_given(&span, true).is_none());
    let batch = reporter.report_given(&span, false).expect("a batch");
    assert_eq!(batch.spans.len(), 1);
    assert_eq!(batch.process.service_name, "svc");
    span.set_sampled(false);
    assert!(reporter.report_given(&span, false).is_none());
}

#[test]
fn port_reads_as_the_standard_parser_does() {
    let texts = [
        "", "+", "-", "0", "+0", "-0", "80", "+80", "-80", "++80", "65535", "65536", "+65535",
        "+65536", "006831", "+006831", " 80", "80 ", "8_0", "0x50", "+\u{e9}", "\u{e9}1",
    ];
    for text in texts {
        assert_eq!(parse_port(text), text.parse::<u16>().ok(), "{:?}", text);
    }
}

#[test]
fn config_takes_a_port_with_a_plus_sign() {
    let config = AgentConfig::resolve(None, None, None, Some("+80".to_owned()));
    assert_eq!(config.port, 80);
}
