//! The tracer: it starts spans, and carries contexts into and out of
//! carriers in the encoding that it was made with.

use crate::codec::{has_propagation_header, propagation_headers, Codec, Extractor, Injector};
use crate::headers::{PARENT_SPAN_ID, SPAN_ID, TRACE_ID};
use crate::reporter::{report_batch, RemoteReporter};
use crate::span::{batch_view, is_clock_reading, timestamp, timestamp_of, Span, SpanModel};
use crate::span_context::{
    baggage_parent_span_id, baggage_span_id, baggage_trace_id, child_baggage, parent_baggage,
    Baggage, SpanContext,
};
use crate::text_map::{collected, entries_map, pairs_view, str_eq, TextMap};
use crate::wire::WireBatch;
use std::sync::Arc;
use vstd::prelude::*;

verus! {

/// Why a context could not be carried.
#[derive(Clone, Copy, Debug, PartialEq, Eq, Structural)]
pub enum Error {
    /// The format asked for is not one that the tracer's encoding reads.
    NoExtractorFound,
    /// The carrier holds none of the headers that are read: there is no
    /// context in it.
    UnableToExtract,
    /// The carrier holds a trace id, span id or parent span id that cannot
    /// be read.
    MalformedContext,
    /// The format asked for is not one that the tracer's encoding writes.
    NoInjectorFound,
}

/// The names by which a caller may ask for a carrier of text headers.
pub open spec fn is_text_map_format(format: Seq<char>) -> bool {
    format == "header"@ || format == "headers"@ || format == "http_headers"@ || format
        == "text_map"@
}

/// Whether the encoding serves the format that a caller asks for.
pub open spec fn codec_serves(codec: Codec, format: Seq<char>) -> bool {
    match codec {
        Codec::ZipkinB3TextMap => is_text_map_format(format),
    }
}

/// An id header is there, but what it holds cannot be read.
pub open spec fn has_malformed_id(b: Baggage) -> bool {
    ||| b.contains_key(TRACE_ID@) && baggage_trace_id(b) is None
    ||| b.contains_key(SPAN_ID@) && baggage_span_id(b) is None
    ||| b.contains_key(PARENT_SPAN_ID@) && baggage_parent_span_id(b) is None
}

/// What extraction gives for a carrier: the entries under the headers that
/// are read, unless the format is not served, the carrier has none of those
/// headers, or one of its ids cannot be read.
pub open spec fn extracted(codec: Codec, format: Seq<char>, carrier: Baggage) -> Result<
    Baggage,
    Error,
> {
    if !codec_serves(codec, format) {
        Err(Error::NoExtractorFound)
    } else if !has_propagation_header(carrier) {
        Err(Error::UnableToExtract)
    } else if has_malformed_id(carrier.restrict(propagation_headers())) {
        Err(Error::MalformedContext)
    } else {
        Ok(carrier.restrict(propagation_headers()))
    }
}

/// The context of a span that may be absent, as contracts see it.
pub open spec fn current_baggage(current: Option<&Span>) -> Option<Baggage> {
    match current {
        Some(span) => Some(span@.context),
        None => None,
    }
}

/// A span that a tracer has just started.
pub open spec fn started(
    context: Baggage,
    operation_name: Seq<char>,
    start_time: u64,
    process: crate::wire::WireProcessModel,
) -> SpanModel {
    SpanModel {
        context,
        operation_name,
        tags: Seq::empty(),
        logs: Seq::empty(),
        start_time,
        duration: 0,
        process,
    }
}

impl Codec {
    /// Whether the encoding serves the format that a caller asks for.
    pub fn serves(&self, format: &str) -> (r: bool)
        ensures
            r == codec_serves(*self, format@),
    {
        match self {
            Codec::ZipkinB3TextMap => {
                str_eq(format, "header") || str_eq(format, "headers") || str_eq(
                    format,
                    "http_headers",
                ) || str_eq(format, "text_map")
            },
        }
    }
}

/// Starts spans and carries their contexts. It shares one reporter with the
/// spans that it starts, and has one encoding, chosen when it is made.
#[derive(Debug)]
pub struct Tracer {
    reporter: Arc<RemoteReporter>,
    codec: Codec,
}

impl Tracer {
    /// The process of the tracer's reporter.
    pub closed spec fn process(&self) -> crate::wire::WireProcessModel {
        self.reporter.process()
    }

    /// The tracer's encoding.
    pub closed spec fn codec(&self) -> Codec {
        self.codec
    }

    /// A tracer that reports through `reporter` and carries contexts in the
    /// encoding `codec`.
    pub fn new(reporter: Arc<RemoteReporter>, codec: Codec) -> (r: Self)
        ensures
            r.process() == reporter.process(),
            r.codec() == codec,
    {
        Tracer { reporter, codec }
    }

    /// The time now, in microseconds since the Unix epoch; 0 where the clock
    /// stands before the epoch. It is the timestamp of what the clock gave.
    pub fn timestamp() -> (r: u64)
        ensures
            exists|reading: Option<(u64, u32)>|
                is_clock_reading(reading) && r == #[trigger] timestamp_of(reading),
    {
        timestamp()
    }

    /// The tracer's reporter.
    pub fn reporter(&self) -> (r: &Arc<RemoteReporter>)
        ensures
            r.process() == self.process(),
    {
        &self.reporter
    }

    /// The batch to send for a span, if any. See `RemoteReporter::report`.
    pub fn report(&self, span: &Span) -> (r: Option<WireBatch>)
        ensures
            r is None || batch_view(r) == report_batch(self.process(), span@),
            crate::span_context::baggage_sampled(span@.context) != Some(true) ==> r is None,
    {
        self.reporter.report(span)
    }

    /// Starts a span at the time that the clock shows now. See
    /// `start_span_at`.
    pub fn start_span(&self, operation_name: String, child_of: Option<&SpanContext>) -> (span: Span)
        ensures
            exists|id: u64, start_time: u64|
                id <= u32::MAX && span@ == #[trigger] started(
                    child_baggage(parent_baggage(child_of), id),
                    operation_name@,
                    start_time,
                    self.process(),
                ),
    {
        let now: u64 = Self::timestamp();
        self.start_span_at(operation_name, child_of, now)
    }

    /// Starts a span with the given name at `start_time`: a child of
    /// `child_of`, or a root where there is none. It shares the tracer's
    /// reporter.
    pub fn start_span_at(
        &self,
        operation_name: String,
        child_of: Option<&SpanContext>,
        start_time: u64,
    ) -> (span: Span)
        ensures
            exists|id: u64|
                id <= u32::MAX && span@ == #[trigger] started(
                    child_baggage(parent_baggage(child_of), id),
                    operation_name@,
                    start_time,
                    self.process(),
                ),
    {
        let mut span = Span::child(child_of, start_time, &self.reporter);
        let ghost id = choose|id: u64|
            id <= u32::MAX && span@ == Span::opened(
                child_baggage(parent_baggage(child_of), id),
                start_time,
                self.reporter.process(),
            );
        span.set_operation_name(operation_name);
        assert(span@ == started(
            child_baggage(parent_baggage(child_of), id),
            operation_name@,
            start_time,
            self.process(),
        ));
        span
    }

    /// Starts a span for a piece of work within a request: a child of the
    /// request's span where it has one, else a root. Without a tracer there
    /// is no span.
    pub fn start_child_span(tracer: Option<&Tracer>, current: Option<&Span>, name: String) -> (r:
        Option<Span>)
        ensures
            match tracer {
                None => r is None,
                Some(t) => r matches Some(span) && exists|id: u64, start_time: u64|
                    id <= u32::MAX && span@ == #[trigger] started(
                        child_baggage(current_baggage(current), id),
                        name@,
                        start_time,
                        t.process(),
                    ),
            },
    {
        match tracer {
            Some(t) => match current {
                Some(span) => Some(t.start_span(name, Some(span.context()))),
                None => Some(t.start_span(name, None)),
            },
            None => None,
        }
    }

    /// The context that the headers of a request carry, if they carry one
    /// that can be read. Where a header occurs twice, the later one counts.
    pub fn parent_span_context(&self, headers: Vec<(String, String)>) -> (r: Option<SpanContext>)
        ensures
            match r {
                Some(context) => extracted(
                    self.codec(),
                    "headers"@,
                    entries_map(collected(pairs_view(headers@))),
                ) == Ok::<Baggage, Error>(context@),
                None => extracted(
                    self.codec(),
                    "headers"@,
                    entries_map(collected(pairs_view(headers@))),
                ) is Err,
            },
    {
        let carrier: TextMap<String> = TextMap::from_pairs(headers);
        match self.extract("headers", &carrier) {
            Ok(context) => Some(context),
            Err(_) => None,
        }
    }

    /// Writes the whole baggage of a context into a carrier, where the
    /// tracer's encoding serves the format; else the carrier stays as it is.
    pub fn inject(&self, span_context: &SpanContext, format: &str, carrier: &mut TextMap<String>) -> (r:
        Result<(), Error>)
        ensures
            codec_serves(self.codec(), format@) ==> r is Ok && final(carrier)@ == old(
                carrier,
            )@.union_prefer_right(span_context@),
            !codec_serves(self.codec(), format@) ==> r == Err::<(), Error>(Error::NoInjectorFound)
                && final(carrier)@ == old(carrier)@,
    {
        if self.codec.serves(format) {
            Injector::inject(&self.codec, span_context, carrier);
            Ok(())
        } else {
            Err(Error::NoInjectorFound)
        }
    }

    /// Reads a context out of a carrier. A carrier without any of the
    /// headers that are read gives another error than one whose ids cannot
    /// be read.
    pub fn extract(&self, format: &str, carrier: &TextMap<String>) -> (r: Result<SpanContext, Error>)
        ensures
            match r {
                Ok(context) => extracted(self.codec(), format@, carrier@) == Ok::<Baggage, Error>(
                    context@,
                ),
                Err(e) => extracted(self.codec(), format@, carrier@) == Err::<Baggage, Error>(e),
            },
    {
        if !self.codec.serves(format) {
            return Err(Error::NoExtractorFound);
        }
        match Extractor::extract(&self.codec, carrier) {
            None => Err(Error::UnableToExtract),
            Some(context) => {
                let bad_trace = context.get(TRACE_ID).is_some() && context.trace_id().is_none();
                let bad_span = context.get(SPAN_ID).is_some() && context.span_id().is_none();
                let bad_parent = context.get(PARENT_SPAN_ID).is_some()
                    && context.parent_span_id().is_none();
                if bad_trace || bad_span || bad_parent {
                    Err(Error::MalformedContext)
                } else {
                    Ok(context)
                }
            },
        }
    }
}

} // verus!
