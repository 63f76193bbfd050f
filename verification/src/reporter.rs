//! Turning finished spans into the batches that are sent to the agent.

use crate::signal::TeardownSignal;
use crate::span::{batch_view, LogModel, Span, SpanModel};
use crate::span_context::{
    baggage_parent_span_id, baggage_sampled, baggage_span_id, baggage_trace_id, Baggage,
};
use crate::tag::{TagModel, TagValue};
use crate::text_map::TextMap;
use crate::trace_id::TraceId;
use crate::wire::{
    to_wire_long, wire_long, FloatBits, SpanRefType, WireBatch, WireBatchModel, WireLog,
    WireLogModel, WireProcess, WireProcessModel, WireSpan, WireSpanModel, WireSpanRef, WireTag,
    WireTagModel, WireValue, WireValueModel, views,
};
use std::sync::Arc;
use vstd::prelude::*;

verus! {

/// The wire value of a tag value. Text and booleans pass through; every
/// integer becomes a signed one of 64 bits, an unsigned one of 64 bits by its
/// bits; every floating-point number becomes a double.
pub open spec fn wire_value(value: TagModel) -> WireValueModel {
    match value {
        TagModel::String(s) => WireValueModel::String(s),
        TagModel::Boolean(b) => WireValueModel::Bool(b),
        TagModel::I8(v) => WireValueModel::Long(v as i64),
        TagModel::I16(v) => WireValueModel::Long(v as i64),
        TagModel::I32(v) => WireValueModel::Long(v as i64),
        TagModel::I64(v) => WireValueModel::Long(v),
        TagModel::U8(v) => WireValueModel::Long(v as i64),
        TagModel::U16(v) => WireValueModel::Long(v as i64),
        TagModel::U32(v) => WireValueModel::Long(v as i64),
        TagModel::U64(v) => WireValueModel::Long(wire_long(v)),
        TagModel::F32(bits) => WireValueModel::Double(FloatBits::Single(bits)),
        TagModel::F64(bits) => WireValueModel::Double(FloatBits::Double(bits)),
    }
}

/// The wire tag of a key and a value.
pub open spec fn wire_tag(key: Seq<char>, value: TagModel) -> WireTagModel {
    WireTagModel { key, value: wire_value(value) }
}

/// The wire tags of a list of keys and values, one for one and in order.
pub open spec fn wire_tags(entries: Seq<(Seq<char>, TagModel)>) -> Seq<WireTagModel> {
    Seq::new(entries.len(), |i: int| wire_tag(entries[i].0, entries[i].1))
}

/// The wire form of a log entry: its own time and its own fields.
pub open spec fn wire_log(log: LogModel) -> WireLogModel {
    WireLogModel { timestamp: wire_long(log.timestamp), fields: wire_tags(log.fields) }
}

/// The wire forms of log entries, one for one and in order.
pub open spec fn wire_logs(logs: Seq<LogModel>) -> Seq<WireLogModel> {
    Seq::new(logs.len(), |i: int| wire_log(logs[i]))
}

/// The trace id to report for a context: its own, or zeros where it has none
/// that can be read.
pub open spec fn reported_trace_id(context: Baggage) -> TraceId {
    match baggage_trace_id(context) {
        Some(id) => id,
        None => TraceId { low: 0, high: 0 },
    }
}

/// The number to report for an id: the id, or 0 where there is none.
pub open spec fn reported_id(id: Option<u64>) -> i64 {
    match id {
        Some(v) => wire_long(v),
        None => 0,
    }
}

/// The references to report for a context: one to the parent, of kind child,
/// where the context names a parent, and none at all where it does not.
pub open spec fn wire_references(context: Baggage) -> Option<Seq<WireSpanRef>> {
    match baggage_parent_span_id(context) {
        Some(parent) => Some(
            seq![
                WireSpanRef {
                    ref_type: SpanRefType::ChildOf,
                    trace_id_low: wire_long(reported_trace_id(context).low),
                    trace_id_high: wire_long(reported_trace_id(context).high),
                    span_id: wire_long(parent),
                },
            ],
        ),
        None => None,
    }
}

/// The one wire record of a span.
pub open spec fn wire_span(span: SpanModel) -> WireSpanModel {
    WireSpanModel {
        trace_id_low: wire_long(reported_trace_id(span.context).low),
        trace_id_high: wire_long(reported_trace_id(span.context).high),
        span_id: reported_id(baggage_span_id(span.context)),
        parent_span_id: reported_id(baggage_parent_span_id(span.context)),
        operation_name: span.operation_name,
        references: wire_references(span.context),
        flags: if baggage_sampled(span.context) == Some(true) {
            1i32
        } else {
            0i32
        },
        start_time: wire_long(span.start_time),
        duration: wire_long(span.duration),
        tags: Some(wire_tags(span.tags)),
        logs: Some(wire_logs(span.logs)),
        incomplete: Some(false),
    }
}

/// What is sent for a span through a reporter of the given process: nothing
/// unless the span's context is marked as sampled, and else one batch with
/// the process and the span's one wire record. A context without a sampling
/// decision counts as not sampled.
pub open spec fn report_batch(process: WireProcessModel, span: SpanModel) -> Option<
    WireBatchModel,
> {
    if baggage_sampled(span.context) == Some(true) {
        Some(WireBatchModel { process, spans: seq![wire_span(span)] })
    } else {
        None
    }
}

/// The wire tag of one tag of a span. Every value has one, so the result is
/// never `None`.
pub fn thrift_tag_from(key: &String, value: &TagValue) -> (r: Option<WireTag>)
    ensures
        r matches Some(tag) && tag@ == wire_tag(key@, value@),
{
    match value {
        TagValue::String(string_value) => Some(
            WireTag { key: key.clone(), value: WireValue::String(string_value.clone()) },
        ),
        TagValue::Boolean(boolean_value) => Some(
            WireTag { key: key.clone(), value: WireValue::Bool(*boolean_value) },
        ),
        TagValue::I8(i8_value) => Some(
            WireTag { key: key.clone(), value: WireValue::Long(*i8_value as i64) },
        ),
        TagValue::I16(i16_value) => Some(
            WireTag { key: key.clone(), value: WireValue::Long(*i16_value as i64) },
        ),
        TagValue::I32(i32_value) => Some(
            WireTag { key: key.clone(), value: WireValue::Long(*i32_value as i64) },
        ),
        TagValue::I64(int_value) => Some(
            WireTag { key: key.clone(), value: WireValue::Long(*int_value) },
        ),
        TagValue::U8(u8_value) => Some(
            WireTag { key: key.clone(), value: WireValue::Long(*u8_value as i64) },
        ),
        TagValue::U16(u16_value) => Some(
            WireTag { key: key.clone(), value: WireValue::Long(*u16_value as i64) },
        ),
        TagValue::U32(u32_value) => Some(
            WireTag { key: key.clone(), value: WireValue::Long(*u32_value as i64) },
        ),
        TagValue::U64(u64_value) => Some(
            WireTag { key: key.clone(), value: WireValue::Long(to_wire_long(*u64_value)) },
        ),
        TagValue::F32(bits) => Some(
            WireTag { key: key.clone(), value: WireValue::Double(FloatBits::Single(*bits)) },
        ),
        TagValue::F64(bits) => Some(
            WireTag { key: key.clone(), value: WireValue::Double(FloatBits::Double(*bits)) },
        ),
    }
}

/// The wire tags of a map of tags: one for each entry, in the map's order.
pub fn wire_tags_of(tags: &TextMap<TagValue>) -> (r: Vec<WireTag>)
    ensures
        views(r@) == wire_tags(tags.entries()),
{
    let mut out: Vec<WireTag> = Vec::new();
    let mut i: usize = 0;
    while i < tags.len()
        invariant
            i <= tags.entries().len(),
            out@.len() == i,
            forall|j: int|
                0 <= j < i ==> (#[trigger] out@[j])@ == wire_tag(
                    tags.entries()[j].0,
                    tags.entries()[j].1,
                ),
        decreases tags.entries().len() - i,
    {
        match tags.entry_at(i) {
            Some((key, value)) => {
                match thrift_tag_from(key, value) {
                    Some(tag) => {
                        out.push(tag);
                    },
                    None => {},
                }
            },
            None => {},
        }
        i = i + 1;
    }
    assert(views(out@) =~= wire_tags(tags.entries()));
    out
}

/// The wire forms of a span's log entries, one for each and in order.
pub fn wire_logs_of(logs: &Vec<(u64, TextMap<TagValue>)>) -> (r: Vec<WireLog>)
    ensures
        views(r@) == wire_logs(crate::span::log_models(logs@)),
{
    let mut out: Vec<WireLog> = Vec::new();
    let mut i: usize = 0;
    while i < logs.len()
        invariant
            i <= logs@.len(),
            out@.len() == i,
            forall|j: int|
                0 <= j < i ==> (#[trigger] out@[j])@ == wire_log(
                    LogModel { timestamp: logs@[j].0, fields: logs@[j].1.entries() },
                ),
        decreases logs@.len() - i,
    {
        let fields = wire_tags_of(&logs[i].1);
        out.push(WireLog { timestamp: to_wire_long(logs[i].0), fields });
        i = i + 1;
    }
    assert(views(out@) =~= wire_logs(crate::span::log_models(logs@)));
    out
}

/// The one wire record of a span.
pub fn wire_span_of(span: &Span) -> (r: WireSpan)
    ensures
        r@ == wire_span(span@),
{
    let trace_id = match span.context().trace_id() {
        Some(id) => id,
        None => TraceId { low: 0, high: 0 },
    };
    let span_id = match span.context().span_id() {
        Some(id) => to_wire_long(id),
        None => 0,
    };
    let parent = span.context().parent_span_id();
    let parent_span_id = match parent {
        Some(id) => to_wire_long(id),
        None => 0,
    };
    let references = match parent {
        Some(id) => {
            let mut refs: Vec<WireSpanRef> = Vec::new();
            refs.push(
                WireSpanRef {
                    ref_type: SpanRefType::ChildOf,
                    trace_id_low: to_wire_long(trace_id.low),
                    trace_id_high: to_wire_long(trace_id.high),
                    span_id: to_wire_long(id),
                },
            );
            assert(refs@ =~= wire_references(span@.context)->0);
            Some(refs)
        },
        None => None,
    };
    let flags: i32 = match span.context().sampled() {
        Some(true) => 1,
        _ => 0,
    };
    WireSpan {
        trace_id_low: to_wire_long(trace_id.low),
        trace_id_high: to_wire_long(trace_id.high),
        span_id,
        parent_span_id,
        operation_name: span.operation_name().clone(),
        references,
        flags,
        start_time: to_wire_long(span.start_time()),
        duration: to_wire_long(span.duration()),
        tags: Some(wire_tags_of(span.tags())),
        logs: Some(wire_logs_of(span.logs())),
        incomplete: Some(false),
    }
}

/// Makes the batches to send for finished spans. It knows the process that
/// reports, and whether it was shut down.
#[derive(Debug)]
pub struct RemoteReporter {
    process: WireProcess,
    shut_down: TeardownSignal,
}

impl RemoteReporter {
    /// The process that the reporter reports for.
    pub closed spec fn process(&self) -> WireProcessModel {
        self.process@
    }

    /// A reporter for the service of the given name and tags.
    pub fn new(service_name: String, tags: Option<Vec<WireTag>>) -> (r: Self)
        ensures
            r.process() == (WireProcessModel {
                service_name: service_name@,
                tags: match tags {
                    Some(t) => Some(views(t@)),
                    None => None,
                },
            }),
    {
        RemoteReporter {
            process: WireProcess { service_name, tags },
            shut_down: TeardownSignal::new(),
        }
    }

    /// One more handle to a shared reporter, made by `Arc::clone`: it points
    /// to the same reporter.
    #[verifier::external_body]
    pub(crate) fn share(reporter: &Arc<RemoteReporter>) -> (r: Arc<RemoteReporter>)
        ensures
            r == *reporter,
    {
        Arc::clone(reporter)
    }

    /// Shuts the reporter down: spans that are finished from now on are no
    /// longer reported.
    pub fn shut_down(&self) {
        self.shut_down.raise();
    }

    /// Whether the reporter was shut down.
    pub fn is_shut_down(&self) -> (r: bool) {
        self.shut_down.is_raised()
    }

    /// The batch to send for a span: none unless the span's context is
    /// marked as sampled, and else the reporter's process with the span's one
    /// wire record.
    pub fn batch_for(&self, span: &Span) -> (r: Option<WireBatch>)
        ensures
            batch_view(r) == report_batch(self.process(), span@),
    {
        match span.context().sampled() {
            Some(true) => {
                let mut spans: Vec<WireSpan> = Vec::new();
                spans.push(wire_span_of(span));
                assert(views(spans@) =~= seq![wire_span(span@)]);
                Some(WireBatch { process: self.process.clone(), spans })
            },
            _ => None,
        }
    }

    /// The batch to send for a span, given whether the reporter was shut
    /// down: none once it was, and else what `batch_for` gives.
    pub fn report_given(&self, span: &Span, shut_down: bool) -> (r: Option<WireBatch>)
        ensures
            batch_view(r) == if shut_down {
                None
            } else {
                report_batch(self.process(), span@)
            },
    {
        if shut_down {
            None
        } else {
            self.batch_for(span)
        }
    }

    /// The batch to send for a span, if any. There is none once the reporter
    /// was shut down, and none for a span whose context is not marked as
    /// sampled.
    pub fn report(&self, span: &Span) -> (r: Option<WireBatch>)
        ensures
            r is None || batch_view(r) == report_batch(self.process(), span@),
            baggage_sampled(span@.context) != Some(true) ==> r is None,
    {
        let shut_down = self.is_shut_down();
        self.report_given(span, shut_down)
    }
}

} // verus!
