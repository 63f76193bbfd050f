//! A span: one timed piece of work, with its tags and log entries.

use crate::clock::{since_unix_epoch, subsecond_nanos, system_now, whole_seconds};
use crate::headers::{PARENT_SPAN_ID, SAMPLED};
use crate::hex::hex_string;
use crate::reporter::{report_batch, RemoteReporter};
use crate::span_context::{
    baggage_sampled, child_baggage, parent_baggage, sampled_text, Baggage, SpanContext,
};
use crate::tag::{TagModel, TagValue};
use crate::text_map::{
    collected, entries_insert, entries_map, entries_remove, has_key, pairs_view, TextMap,
};
use crate::wire::{WireBatch, WireBatchModel, WireProcessModel};
use std::sync::Arc;
use vstd::prelude::*;

verus! {

/// What a log entry is to contracts: its time in microseconds and its fields
/// in order.
pub struct LogModel {
    pub timestamp: u64,
    pub fields: Seq<(Seq<char>, TagModel)>,
}

/// What a span is to contracts.
pub struct SpanModel {
    pub context: Baggage,
    pub operation_name: Seq<char>,
    /// The tags in the order in which their keys first came in.
    pub tags: Seq<(Seq<char>, TagModel)>,
    pub logs: Seq<LogModel>,
    /// Microseconds since the Unix epoch.
    pub start_time: u64,
    /// Microseconds; 0 until the span is finished.
    pub duration: u64,
    /// The process of the reporter that the span will be reported through.
    pub process: WireProcessModel,
}

/// The log entries of a span as contracts see them.
pub open spec fn log_models(logs: Seq<(u64, TextMap<TagValue>)>) -> Seq<LogModel> {
    Seq::new(logs.len(), |i: int| LogModel { timestamp: logs[i].0, fields: logs[i].1.entries() })
}

/// The time between `start_time` and `timestamp`, and 0 where `timestamp`
/// lies before `start_time`.
pub open spec fn elapsed(start_time: u64, timestamp: u64) -> u64 {
    if timestamp >= start_time {
        (timestamp - start_time) as u64
    } else {
        0
    }
}

/// Microseconds since the Unix epoch for a clock reading of whole seconds and
/// nanoseconds beyond them, held at `u64::MAX` where the number would not fit.
pub open spec fn timestamp_micros(seconds: u64, subsec_nanos: u32) -> u64 {
    if seconds * 1_000_000 + subsec_nanos / 1000 > u64::MAX {
        u64::MAX
    } else {
        (seconds * 1_000_000 + subsec_nanos / 1000) as u64
    }
}

/// Microseconds since the Unix epoch for a clock reading.
pub fn micros_from(seconds: u64, subsec_nanos: u32) -> (r: u64)
    ensures
        r == timestamp_micros(seconds, subsec_nanos),
{
    let below: u64 = (subsec_nanos / 1000) as u64;
    if seconds > (u64::MAX - below) / 1_000_000 {
        u64::MAX
    } else {
        seconds * 1_000_000 + below
    }
}

/// The timestamp for what the clock gave: the microseconds of a reading of
/// seconds and nanoseconds since the Unix epoch, and 0 where the clock stands
/// before the epoch and so gave no reading.
pub open spec fn timestamp_of(reading: Option<(u64, u32)>) -> u64 {
    match reading {
        Some((seconds, subsec_nanos)) => timestamp_micros(seconds, subsec_nanos),
        None => 0,
    }
}

/// The timestamp for what the clock gave.
pub fn timestamp_from(reading: Option<(u64, u32)>) -> (r: u64)
    ensures
        r == timestamp_of(reading),
{
    match reading {
        Some((seconds, subsec_nanos)) => micros_from(seconds, subsec_nanos),
        None => 0,
    }
}

/// What a clock can give: nothing where it stands before the Unix epoch, and
/// else whole seconds with less than a second's worth of nanoseconds.
pub open spec fn is_clock_reading(reading: Option<(u64, u32)>) -> bool {
    reading matches Some(pair) ==> pair.1 < 1_000_000_000
}

/// The time now, in microseconds since the Unix epoch; 0 where the clock
/// stands before the epoch. It is the timestamp of what the clock gave.
pub fn timestamp() -> (r: u64)
    ensures
        exists|reading: Option<(u64, u32)>|
            is_clock_reading(reading) && r == #[trigger] timestamp_of(reading),
{
    let now = system_now();
    let reading = match since_unix_epoch(&now) {
        Some(passed) => Some((whole_seconds(&passed), subsecond_nanos(&passed))),
        None => None,
    };
    timestamp_from(reading)
}

/// A span that is open: its holder may still change it.
#[derive(Debug)]
pub struct Span {
    context: SpanContext,
    operation_name: String,
    tags: TextMap<TagValue>,
    logs: Vec<(u64, TextMap<TagValue>)>,
    start_time: u64,
    duration: u64,
    reporter: Arc<RemoteReporter>,
}

impl View for Span {
    type V = SpanModel;

    closed spec fn view(&self) -> SpanModel {
        SpanModel {
            context: self.context@,
            operation_name: self.operation_name@,
            tags: self.tags.entries(),
            logs: log_models(self.logs@),
            start_time: self.start_time,
            duration: self.duration,
            process: self.reporter.process(),
        }
    }
}

/// What is left of a span once it is finished: its context. Whoever holds it
/// knows that the span can no longer change.
#[derive(Debug)]
pub struct FinishedSpan {
    context: SpanContext,
}

impl View for FinishedSpan {
    type V = Baggage;

    closed spec fn view(&self) -> Baggage {
        self.context@
    }
}

impl FinishedSpan {
    /// The context of the span that was finished.
    pub fn context(&self) -> (c: &SpanContext)
        ensures
            c@ == self@,
    {
        &self.context
    }
}

/// The span as it stands when it is finished at `timestamp`.
pub open spec fn finished_model(span: SpanModel, timestamp: u64) -> SpanModel {
    SpanModel {
        context: span.context,
        operation_name: span.operation_name,
        tags: span.tags,
        logs: span.logs,
        start_time: span.start_time,
        duration: elapsed(span.start_time, timestamp),
        process: span.process,
    }
}

/// The span with one more log entry at its end.
pub open spec fn with_log(
    span: SpanModel,
    timestamp: u64,
    fields: Seq<(Seq<char>, TagModel)>,
) -> SpanModel {
    SpanModel {
        context: span.context,
        operation_name: span.operation_name,
        tags: span.tags,
        logs: span.logs.push(LogModel { timestamp, fields }),
        start_time: span.start_time,
        duration: span.duration,
        process: span.process,
    }
}

/// What finishing a span at `timestamp` hands over for sending, given
/// whether the span's reporter was shut down: nothing once it was, and else
/// what the reporter makes of the span with its duration set.
pub open spec fn finish_batch(span: SpanModel, timestamp: u64, reporter_gone: bool) -> Option<
    WireBatchModel,
> {
    if reporter_gone {
        None
    } else {
        report_batch(span.process, finished_model(span, timestamp))
    }
}

/// Finishing a span whose reporter is gone hands nothing over for sending,
/// whatever the span holds and whenever it is finished. Neither does
/// finishing a span whose context is not marked as sampled, whether the
/// reporter is there or not.
pub proof fn lemma_nothing_to_send(span: SpanModel, timestamp: u64, reporter_gone: bool)
    ensures
        reporter_gone ==> finish_batch(span, timestamp, reporter_gone) is None,
        baggage_sampled(span.context) != Some(true) ==> finish_batch(
            span,
            timestamp,
            reporter_gone,
        ) is None,
{
}

/// A batch that may be absent, as contracts see it.
pub open spec fn batch_view(batch: Option<WireBatch>) -> Option<WireBatchModel> {
    match batch {
        Some(b) => Some(b@),
        None => None,
    }
}

impl Span {
    /// A root span that starts at `start_time`.
    pub fn new(start_time: u64, reporter: &Arc<RemoteReporter>) -> (span: Span)
        ensures
            exists|id: u64|
                id <= u32::MAX && span@ == Self::opened(
                    child_baggage(None, id),
                    start_time,
                    reporter.process(),
                ),
    {
        Self::child(None, start_time, reporter)
    }

    /// A span that has just been opened on a context.
    pub open spec fn opened(
        context: Baggage,
        start_time: u64,
        process: WireProcessModel,
    ) -> SpanModel {
        SpanModel {
            context,
            operation_name: Seq::empty(),
            tags: Seq::empty(),
            logs: Seq::empty(),
            start_time,
            duration: 0,
            process,
        }
    }

    /// A span that starts at `start_time` as a child of `parent`, or as a
    /// root where there is no parent. It has no name, tags or log entries
    /// yet, and a duration of 0.
    pub fn child(parent: Option<&SpanContext>, start_time: u64, reporter: &Arc<RemoteReporter>) -> (span:
        Span)
        ensures
            exists|id: u64|
                id <= u32::MAX && span@ == Self::opened(
                    child_baggage(parent_baggage(parent), id),
                    start_time,
                    reporter.process(),
                ),
    {
        Self::with_context(SpanContext::child(parent), start_time, reporter)
    }

    /// A span on the given context that starts at `start_time`.
    pub fn with_context(context: SpanContext, start_time: u64, reporter: &Arc<RemoteReporter>) -> (span:
        Span)
        ensures
            span@ == Self::opened(context@, start_time, reporter.process()),
    {
        let span = Span {
            context,
            operation_name: String::new(),
            tags: TextMap::new(),
            logs: Vec::new(),
            start_time,
            duration: 0,
            reporter: RemoteReporter::share(reporter),
        };
        assert(log_models(span.logs@) =~= Seq::<LogModel>::empty());
        span
    }

    /// The span's context.
    pub fn context(&self) -> (c: &SpanContext)
        ensures
            c@ == self@.context,
    {
        &self.context
    }

    /// The span's tags.
    pub fn tags(&self) -> (t: &TextMap<TagValue>)
        ensures
            t.entries() == self@.tags,
    {
        &self.tags
    }

    /// The span's log entries, each with its time and its fields.
    pub fn logs(&self) -> (l: &Vec<(u64, TextMap<TagValue>)>)
        ensures
            log_models(l@) == self@.logs,
    {
        &self.logs
    }

    /// When the span started, in microseconds since the Unix epoch.
    pub fn start_time(&self) -> (t: u64)
        ensures
            t == self@.start_time,
    {
        self.start_time
    }

    /// How long the span took, in microseconds; 0 while it is open.
    pub fn duration(&self) -> (d: u64)
        ensures
            d == self@.duration,
    {
        self.duration
    }

    /// The reporter that the span is reported through.
    pub fn reporter(&self) -> (r: &Arc<RemoteReporter>)
        ensures
            r.process() == self@.process,
    {
        &self.reporter
    }

    /// Names another span as the one that this span follows from: it
    /// becomes the parent.
    pub fn set_parent_span_id(&mut self, parent_span_id: u64)
        ensures
            final(self)@ == (SpanModel {
                context: old(self)@.context.insert(
                    PARENT_SPAN_ID@,
                    hex_string(parent_span_id as nat),
                ),
                ..old(self)@
            }),
    {
        self.context.set_parent_span_id(parent_span_id);
    }

    /// Records whether the span's trace is to be reported.
    pub fn set_sampled(&mut self, sampled: bool)
        ensures
            final(self)@ == (SpanModel {
                context: old(self)@.context.insert(SAMPLED@, sampled_text(sampled)),
                ..old(self)@
            }),
    {
        self.context.set_sampled(sampled);
    }

    /// Gives a tag a value. A tag that the span has keeps its place.
    pub fn set_tag(&mut self, key: String, value: TagValue)
        ensures
            final(self)@ == (SpanModel {
                tags: entries_insert(old(self)@.tags, key@, value@),
                ..old(self)@
            }),
    {
        self.tags.insert(key, value);
    }

    /// Takes a tag off the span.
    pub fn unset_tag(&mut self, key: &str)
        ensures
            final(self)@ == (SpanModel {
                tags: entries_remove(old(self)@.tags, key@),
                ..old(self)@
            }),
    {
        self.tags.remove(key);
    }

    /// The value of the tag with exactly this key.
    pub fn tag(&self, key: &str) -> (r: Option<&TagValue>)
        ensures
            match r {
                Some(v) => entries_map(self@.tags).contains_key(key@) && entries_map(
                    self@.tags,
                )[key@] == v@,
                None => !entries_map(self@.tags).contains_key(key@),
            },
    {
        self.tags.get(key)
    }

    /// Adds a log entry at the given time.
    pub fn log_at(&mut self, timestamp: u64, tags: Vec<(String, TagValue)>)
        ensures
            final(self)@ == with_log(old(self)@, timestamp, collected(pairs_view(tags@))),
    {
        let ghost fields_model = collected(pairs_view(tags@));
        let fields = TextMap::from_pairs(tags);
        let ghost before = self.logs@;
        self.logs.push((timestamp, fields));
        assert(log_models(self.logs@) =~= log_models(before).push(
            LogModel { timestamp, fields: fields_model },
        ));
        assert(self@.logs == log_models(self.logs@));
    }

    /// Adds a log entry at the time that the clock shows now.
    pub fn log(&mut self, tags: Vec<(String, TagValue)>)
        ensures
            exists|timestamp: u64|
                final(self)@ == #[trigger] with_log(
                    old(self)@,
                    timestamp,
                    collected(pairs_view(tags@)),
                ),
    {
        let now: u64 = timestamp();
        self.log_at(now, tags);
    }

    /// The fields of a log entry that names an event.
    pub open spec fn event_fields(event: Seq<char>) -> Seq<(Seq<char>, TagModel)> {
        seq![("event"@, TagModel::String(event))]
    }

    /// Adds a log entry, at the time that the clock shows now, whose one
    /// field is `event` with the given name as its value.
    pub fn log_event(&mut self, event: String)
        ensures
            exists|timestamp: u64|
                final(self)@ == #[trigger] with_log(
                    old(self)@,
                    timestamp,
                    Self::event_fields(event@),
                ),
    {
        let mut fields: Vec<(String, TagValue)> = Vec::new();
        fields.push((String::from_str("event"), TagValue::String(event)));
        proof {
            let list = pairs_view(fields@);
            assert(list =~= Self::event_fields(event@));
            assert(list.drop_last() =~= Seq::<(Seq<char>, TagModel)>::empty());
            assert(collected(list.drop_last()) =~= Seq::<(Seq<char>, TagModel)>::empty());
            assert(!has_key(collected(list.drop_last()), list.last().0));
            assert(collected(list) =~= Self::event_fields(event@));
        }
        self.log(fields);
    }

    /// Puts an item into the baggage of the span's context. Children made
    /// from the context afterwards carry it; spans made before do not.
    pub fn set_baggage_item(&mut self, key: String, value: String)
        ensures
            final(self)@ == (SpanModel {
                context: old(self)@.context.insert(key@, value@),
                ..old(self)@
            }),
    {
        self.context.set(key, value);
    }

    /// Takes an item out of the baggage of the span's context.
    pub fn unset_baggage_item(&mut self, key: &str)
        ensures
            final(self)@ == (SpanModel { context: old(self)@.context.remove(key@), ..old(self)@ }),
    {
        self.context.unset(key);
    }

    /// The baggage item with exactly this key.
    pub fn baggage_item(&self, key: &str) -> (r: Option<&String>)
        ensures
            match r {
                Some(v) => self@.context.contains_key(key@) && self@.context[key@] == v@,
                None => !self@.context.contains_key(key@),
            },
    {
        self.context.get(key)
    }

    /// Names the work that the span stands for.
    pub fn set_operation_name(&mut self, name: String)
        ensures
            final(self)@ == (SpanModel { operation_name: name@, ..old(self)@ }),
    {
        self.operation_name = name;
    }

    /// The name of the work that the span stands for.
    pub fn operation_name(&self) -> (name: &String)
        ensures
            name@ == self@.operation_name,
    {
        &self.operation_name
    }

    /// Finishes the span at the time that the clock shows now. See
    /// `finish_at`. There is no batch for a span whose context is not marked
    /// as sampled, whatever the clock shows.
    pub fn finish(self) -> (r: (FinishedSpan, Option<WireBatch>))
        ensures
            r.0@ == self@.context,
            r.1 is None || exists|timestamp: u64|
                batch_view(r.1) == report_batch(
                    self@.process,
                    #[trigger] finished_model(self@, timestamp),
                ),
            baggage_sampled(self@.context) != Some(true) ==> r.1 is None,
    {
        let now: u64 = timestamp();
        self.finish_at(now)
    }

    /// Finishes the span at `timestamp` and hands back its context, and the
    /// batch to send for it where there is one. The duration is the time
    /// since the start, and 0 where `timestamp` lies before the start. There
    /// is no batch where the span's reporter was shut down, nor where the
    /// context is not marked as sampled.
    pub fn finish_at(self, timestamp: u64) -> (r: (FinishedSpan, Option<WireBatch>))
        ensures
            r.0@ == self@.context,
            r.1 is None || batch_view(r.1) == report_batch(
                self@.process,
                finished_model(self@, timestamp),
            ),
            report_batch(self@.process, finished_model(self@, timestamp)) is None ==> r.1 is None,
    {
        let gone = self.reporter.is_shut_down();
        self.finish_with(timestamp, gone)
    }

    /// Finishes the span at `timestamp`, given whether its reporter was shut
    /// down. With the reporter gone there is no batch; else the batch is the
    /// one that the reporter makes of the span with its duration set.
    pub fn finish_with(self, timestamp: u64, reporter_gone: bool) -> (r: (
        FinishedSpan,
        Option<WireBatch>,
    ))
        ensures
            r.0@ == self@.context,
            batch_view(r.1) == finish_batch(self@, timestamp, reporter_gone),
    {
        let mut span = self;
        span.duration = if timestamp >= span.start_time {
            timestamp - span.start_time
        } else {
            0
        };
        let batch = if reporter_gone {
            None
        } else {
            span.reporter.batch_for(&span)
        };
        (FinishedSpan { context: span.context }, batch)
    }
}

} // verus!
