//! A tracing client: trace and span identifiers, propagation of a span's
//! context through text headers, the recording of spans, and the wire records
//! that a finished span is reported as.

pub mod channel;
mod clock;
pub mod codec;
pub mod config;
pub mod headers;
pub mod hex;
mod random;
pub mod reporter;
mod signal;
pub mod span;
pub mod span_context;
pub mod tag;
pub mod text_map;
pub mod trace_id;
pub mod tracer;
pub mod wire;

pub use codec::{Codec, Extractor, Injector};
pub use hex::{convert_hex_to_u64, ParseHexError};
pub use reporter::RemoteReporter;
pub use span::{FinishedSpan, Span};
pub use span_context::SpanContext;
pub use tag::TagValue;
pub use text_map::TextMap;
pub use trace_id::{SpanId, TraceId};
pub use tracer::{Error, Tracer};
