//! Carrying a span's context across a process boundary as text headers.

use crate::headers::{
    is_propagation_header, FLAGS, OT_SPAN_CONTEXT, PARENT_SPAN_ID, REQUEST_ID, SAMPLED, SPAN_ID,
    TRACE_ID,
};
use crate::span_context::SpanContext;
use crate::text_map::TextMap;
use vstd::prelude::*;

verus! {

/// The encodings in which a context can travel.
#[derive(Clone, Copy, Debug, PartialEq, Eq, Structural)]
pub enum Codec {
    /// Zipkin's B3 headers in a map from header names to text.
    ZipkinB3TextMap,
}

/// The header names that extraction reads.
pub open spec fn propagation_headers() -> Set<Seq<char>> {
    Set::new(|name: Seq<char>| is_propagation_header(name))
}

/// The carrier holds at least one of the headers that extraction reads.
pub open spec fn has_propagation_header(carrier: Map<Seq<char>, Seq<char>>) -> bool {
    exists|name: Seq<char>| is_propagation_header(name) && #[trigger] carrier.contains_key(name)
}

/// What a context holds under the headers that are read comes out of a
/// carrier as it went in: after the context's baggage is written into any
/// carrier, extraction from that carrier finds, under each such header that
/// the context has, the context's own value.
pub proof fn lemma_injected_is_extracted(context: Map<Seq<char>, Seq<char>>, carrier: Map<
    Seq<char>,
    Seq<char>,
>)
    ensures
        forall|name: Seq<char>|
            is_propagation_header(name) && #[trigger] context.contains_key(name) ==> {
                let received = carrier.union_prefer_right(context).restrict(propagation_headers());
                received.contains_key(name) && received[name] == context[name]
            },
        has_propagation_header(context) ==> has_propagation_header(
            carrier.union_prefer_right(context),
        ),
{
    if has_propagation_header(context) {
        let name = choose|name: Seq<char>|
            is_propagation_header(name) && #[trigger] context.contains_key(name);
        assert(carrier.union_prefer_right(context).contains_key(name));
    }
}

/// Copies one header from the carrier, where the carrier has it.
fn copy_header(carrier: &TextMap<String>, name: &'static str, baggage: &mut TextMap<String>)
    ensures
        final(baggage)@ == if carrier@.contains_key(name@) {
            old(baggage)@.insert(name@, carrier@[name@])
        } else {
            old(baggage)@
        },
{
    match carrier.get(name) {
        Some(value) => {
            baggage.insert(String::from_str(name), value.clone());
        },
        None => {},
    }
}

/// Reads a context out of a carrier.
pub struct Extractor {}

impl Extractor {
    /// The context that a carrier holds: its entries under the seven header
    /// names that are read, and no others. `None` where the carrier has none
    /// of the seven, which is not the same as a context without entries.
    pub fn extract(codec: &Codec, carrier: &TextMap<String>) -> (r: Option<SpanContext>)
        ensures
            match r {
                Some(context) => has_propagation_header(carrier@) && context@ == carrier@.restrict(
                    propagation_headers(),
                ),
                None => !has_propagation_header(carrier@),
            },
    {
        match codec {
            Codec::ZipkinB3TextMap => {
                let mut baggage: TextMap<String> = TextMap::new();
                copy_header(carrier, REQUEST_ID, &mut baggage);
                copy_header(carrier, TRACE_ID, &mut baggage);
                copy_header(carrier, SPAN_ID, &mut baggage);
                copy_header(carrier, PARENT_SPAN_ID, &mut baggage);
                copy_header(carrier, SAMPLED, &mut baggage);
                copy_header(carrier, FLAGS, &mut baggage);
                copy_header(carrier, OT_SPAN_CONTEXT, &mut baggage);
                assert(baggage@ =~= carrier@.restrict(propagation_headers()));
                if baggage.is_empty() {
                    assert forall|name: Seq<char>| is_propagation_header(name) implies !(
                    #[trigger] carrier@.contains_key(name)) by {
                        if carrier@.contains_key(name) {
                            assert(baggage@.contains_key(name));
                        }
                    }
                    None
                } else {
                    assert(has_propagation_header(carrier@)) by {
                        if !has_propagation_header(carrier@) {
                            assert(baggage@ =~= Map::<Seq<char>, Seq<char>>::empty());
                        }
                    }
                    Some(SpanContext::from(baggage))
                }
            },
        }
    }
}

/// Writes a context into a carrier.
pub struct Injector {}

impl Injector {
    /// Writes every entry of the context's baggage into the carrier, also
    /// those under names that extraction does not read. An entry that the
    /// carrier already has under such a name is replaced.
    pub fn inject(codec: &Codec, span_context: &SpanContext, carrier: &mut TextMap<String>)
        ensures
            final(carrier)@ == old(carrier)@.union_prefer_right(span_context@),
    {
        match codec {
            Codec::ZipkinB3TextMap => {
                carrier.extend_from(span_context.baggage());
            },
        }
    }
}

} // verus!
