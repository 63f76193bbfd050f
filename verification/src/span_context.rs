//! The part of a span that travels: its identity, its sampling decision and
//! its baggage, all held as text under header names.

use crate::headers::{lemma_header_names_differ, FLAGS, PARENT_SPAN_ID, SAMPLED, SPAN_ID, TRACE_ID};
use crate::hex::{convert_hex_to_u64, format_hex, hex_string, parse_hex_spec};
use crate::random::random_u32;
use crate::text_map::{str_eq, TextMap};
use crate::trace_id::{
    lemma_hex_roundtrip, lemma_trace_id_roundtrip, trace_id_parse_spec, trace_id_text, SpanId,
    TraceId,
};
use vstd::prelude::*;

verus! {

/// What a context holds: text values under text names.
pub type Baggage = Map<Seq<char>, Seq<char>>;

/// The number under `name`, where the baggage has the name and its value is
/// the hexadecimal form of a 64-bit number.
pub open spec fn baggage_number(b: Baggage, name: Seq<char>) -> Option<u64> {
    if b.contains_key(name) {
        match parse_hex_spec(b[name]) {
            Ok(v) => Some(v),
            Err(_) => None,
        }
    } else {
        None
    }
}

/// The trace id that the baggage carries, if it carries one that can be read.
pub open spec fn baggage_trace_id(b: Baggage) -> Option<TraceId> {
    if b.contains_key(TRACE_ID@) {
        match trace_id_parse_spec(b[TRACE_ID@]) {
            Ok(id) => Some(id),
            Err(_) => None,
        }
    } else {
        None
    }
}

/// The span id that the baggage carries.
pub open spec fn baggage_span_id(b: Baggage) -> Option<SpanId> {
    baggage_number(b, SPAN_ID@)
}

/// The id of the parent span that the baggage carries.
pub open spec fn baggage_parent_span_id(b: Baggage) -> Option<SpanId> {
    baggage_number(b, PARENT_SPAN_ID@)
}

/// The flags that the baggage carries.
pub open spec fn baggage_flags(b: Baggage) -> Option<u64> {
    baggage_number(b, FLAGS@)
}

/// A sampling decision as text: `1` to record, `0` not to.
pub open spec fn sampled_text(sampled: bool) -> Seq<char> {
    if sampled {
        seq!['1']
    } else {
        seq!['0']
    }
}

/// The sampling decision that the baggage carries: `Some` where it holds `1`
/// or `0` under the header of the decision, `None` where the header is absent
/// or holds anything else.
pub open spec fn baggage_sampled(b: Baggage) -> Option<bool> {
    if b.contains_key(SAMPLED@) {
        if b[SAMPLED@] == seq!['1'] {
            Some(true)
        } else if b[SAMPLED@] == seq!['0'] {
            Some(false)
        } else {
            None
        }
    } else {
        None
    }
}

/// The baggage of a root context made from the fresh number `id`: the number
/// is both the span id and the low half of the trace id.
pub open spec fn root_baggage(id: u64) -> Baggage {
    Map::<Seq<char>, Seq<char>>::empty().insert(
        TRACE_ID@,
        trace_id_text(TraceId { low: id, high: 0 }),
    ).insert(SPAN_ID@, hex_string(id as nat))
}

/// The baggage of a context derived from `parent` with the fresh number `id`.
/// Without a parent it is a root. With one, the child takes over the parent's
/// baggage, and with it the sampling decision; its span id is `id`; its trace
/// id is the parent's, or that of a root where the parent has none that can be
/// read; its parent span id is the parent's span id, and absent where the
/// parent has none that can be read.
pub open spec fn child_baggage(parent: Option<Baggage>, id: u64) -> Baggage {
    match parent {
        None => root_baggage(id),
        Some(p) => {
            let trace_id = match baggage_trace_id(p) {
                Some(t) => t,
                None => TraceId { low: id, high: 0 },
            };
            let named = p.insert(TRACE_ID@, trace_id_text(trace_id)).insert(
                SPAN_ID@,
                hex_string(id as nat),
            );
            match baggage_span_id(p) {
                Some(parent_id) => named.insert(PARENT_SPAN_ID@, hex_string(parent_id as nat)),
                None => named.remove(PARENT_SPAN_ID@),
            }
        },
    }
}

/// What is written under the header of an id, a flag or the sampling decision
/// reads back as what was written, and leaves what stands under the other
/// headers as it was.
pub proof fn lemma_written_reads_back(b: Baggage)
    ensures
        forall|id: TraceId| #[trigger]
            baggage_trace_id(b.insert(TRACE_ID@, trace_id_text(id))) == Some(id),
        forall|v: u64| #[trigger]
            baggage_span_id(b.insert(SPAN_ID@, hex_string(v as nat))) == Some(v),
        forall|v: u64| #[trigger]
            baggage_parent_span_id(b.insert(PARENT_SPAN_ID@, hex_string(v as nat))) == Some(v),
        forall|v: u64| #[trigger] baggage_flags(b.insert(FLAGS@, hex_string(v as nat))) == Some(v),
        forall|s: bool| #[trigger]
            baggage_sampled(b.insert(SAMPLED@, sampled_text(s))) == Some(s),
{
    assert forall|id: TraceId| #[trigger]
        baggage_trace_id(b.insert(TRACE_ID@, trace_id_text(id))) == Some(id) by {
        lemma_trace_id_roundtrip(id);
    }
    assert forall|v: u64| #[trigger]
        baggage_span_id(b.insert(SPAN_ID@, hex_string(v as nat))) == Some(v) by {
        lemma_hex_roundtrip(v);
    }
    assert forall|v: u64| #[trigger]
        baggage_parent_span_id(b.insert(PARENT_SPAN_ID@, hex_string(v as nat))) == Some(v) by {
        lemma_hex_roundtrip(v);
    }
    assert forall|v: u64| #[trigger]
        baggage_flags(b.insert(FLAGS@, hex_string(v as nat))) == Some(v) by {
        lemma_hex_roundtrip(v);
    }
    assert forall|s: bool| #[trigger]
        baggage_sampled(b.insert(SAMPLED@, sampled_text(s))) == Some(s) by {
        assert(seq!['0'][0] != seq!['1'][0]);
    }
}

/// A root made from the number `id` has `id` as its span id and as the low
/// half of its trace id, a high half of 0, no parent and no sampling
/// decision. Its span id is 0 only where `id` is.
pub proof fn lemma_root_identity(id: u64)
    ensures
        baggage_trace_id(root_baggage(id)) == Some(TraceId { low: id, high: 0 }),
        baggage_span_id(root_baggage(id)) == Some(id),
        baggage_parent_span_id(root_baggage(id)) is None,
        baggage_sampled(root_baggage(id)) is None,
        baggage_flags(root_baggage(id)) is None,
{
    lemma_header_names_differ();
    lemma_trace_id_roundtrip(TraceId { low: id, high: 0 });
    lemma_hex_roundtrip(id);
}

/// A child derived from `parent` with the number `id` has `id` as its span
/// id and the parent's span id as its parent span id. It has the parent's
/// trace id where the parent has one that can be read, and a root's trace id
/// where it has not. It keeps the parent's sampling decision and flags, and
/// every other entry of the parent's baggage.
pub proof fn lemma_child_identity(parent: Baggage, id: u64)
    ensures
        baggage_span_id(child_baggage(Some(parent), id)) == Some(id),
        baggage_parent_span_id(child_baggage(Some(parent), id)) == baggage_span_id(parent),
        baggage_trace_id(parent) is Some ==> baggage_trace_id(child_baggage(Some(parent), id))
            == baggage_trace_id(parent),
        baggage_trace_id(parent) is None ==> baggage_trace_id(child_baggage(Some(parent), id))
            == Some(TraceId { low: id, high: 0 }),
        baggage_sampled(child_baggage(Some(parent), id)) == baggage_sampled(parent),
        baggage_flags(child_baggage(Some(parent), id)) == baggage_flags(parent),
        forall|name: Seq<char>|
            name != TRACE_ID@ && name != SPAN_ID@ && name != PARENT_SPAN_ID@ ==> (child_baggage(
                Some(parent),
                id,
            ).contains_key(name) == #[trigger] parent.contains_key(name)) && (parent.contains_key(
                name,
            ) ==> child_baggage(Some(parent), id)[name] == parent[name]),
{
    lemma_header_names_differ();
    lemma_hex_roundtrip(id);
    lemma_trace_id_roundtrip(TraceId { low: id, high: 0 });
    match baggage_trace_id(parent) {
        Some(t) => {
            lemma_trace_id_roundtrip(t);
        },
        None => {},
    }
    match baggage_span_id(parent) {
        Some(parent_id) => {
            lemma_hex_roundtrip(parent_id);
        },
        None => {},
    }
}

/// The identity and baggage of a span, as it is handed from process to
/// process.
#[derive(Debug)]
pub struct SpanContext {
    baggage: TextMap<String>,
}

impl View for SpanContext {
    type V = Baggage;

    closed spec fn view(&self) -> Baggage {
        self.baggage@
    }
}

/// The view of a parent that may be absent.
pub open spec fn parent_baggage(parent: Option<&SpanContext>) -> Option<Baggage> {
    match parent {
        Some(p) => Some(p@),
        None => None,
    }
}

impl SpanContext {
    /// The trace id, as contracts speak of it.
    pub open spec fn spec_trace_id(&self) -> Option<TraceId> {
        baggage_trace_id(self@)
    }

    /// The span id, as contracts speak of it.
    pub open spec fn spec_span_id(&self) -> Option<SpanId> {
        baggage_span_id(self@)
    }

    /// The parent span id, as contracts speak of it.
    pub open spec fn spec_parent_span_id(&self) -> Option<SpanId> {
        baggage_parent_span_id(self@)
    }

    /// The sampling decision, as contracts speak of it.
    pub open spec fn spec_sampled(&self) -> Option<bool> {
        baggage_sampled(self@)
    }

    /// A fresh number for a span or a trace: 32 random bits, widened to 64.
    pub fn generate_id() -> (id: u64)
        ensures
            id <= u32::MAX,
    {
        let drawn: u32 = random_u32();
        drawn as u64
    }

    /// A root context with a fresh identity.
    pub fn new() -> (r: Self)
        ensures
            exists|id: u64| id <= u32::MAX && r@ == root_baggage(id),
            r.spec_trace_id() matches Some(t) && t.high == 0 && r.spec_span_id() == Some(t.low),
            r.spec_parent_span_id() is None,
            r.spec_sampled() is None,
    {
        let id: u64 = Self::generate_id();
        proof {
            lemma_root_identity(id);
        }
        Self::with_id(id)
    }

    /// The root context whose span id and trace id are both `id`.
    pub fn with_id(id: u64) -> (r: Self)
        ensures
            r@ == root_baggage(id),
    {
        let mut context = SpanContext { baggage: TextMap::new() };
        context.set_trace_id(TraceId { low: id, high: 0 });
        context.set_span_id(id);
        context
    }

    /// The context that holds exactly the given baggage.
    pub fn from(baggage: TextMap<String>) -> (r: Self)
        ensures
            r@ == baggage@,
    {
        SpanContext { baggage }
    }

    /// Everything that the context carries.
    pub fn baggage(&self) -> (b: &TextMap<String>)
        ensures
            b@ == self@,
    {
        &self.baggage
    }

    /// The number held in hexadecimal under a name.
    fn number(&self, name: &str) -> (r: Option<u64>)
        ensures
            r == baggage_number(self@, name@),
    {
        match self.baggage.get(name) {
            Some(text) => match convert_hex_to_u64(text.as_str()) {
                Ok(v) => Some(v),
                Err(_) => None,
            },
            None => None,
        }
    }

    /// The trace id. `None` where the context has none or its text cannot be
    /// read.
    pub fn trace_id(&self) -> (r: Option<TraceId>)
        ensures
            r == self.spec_trace_id(),
    {
        match self.baggage.get(TRACE_ID) {
            Some(text) => match TraceId::try_from(text.as_str()) {
                Ok(id) => Some(id),
                Err(_) => None,
            },
            None => None,
        }
    }

    /// Gives the context a trace id.
    pub fn set_trace_id(&mut self, trace_id: TraceId)
        ensures
            final(self)@ == old(self)@.insert(TRACE_ID@, trace_id_text(trace_id)),
            final(self).spec_trace_id() == Some(trace_id),
    {
        proof {
            lemma_written_reads_back(self@);
        }
        self.baggage.insert(String::from_str(TRACE_ID), trace_id.to_hex_string());
    }

    /// The span id. `None` where the context has none or its text cannot be
    /// read.
    pub fn span_id(&self) -> (r: Option<SpanId>)
        ensures
            r == self.spec_span_id(),
    {
        self.number(SPAN_ID)
    }

    /// Gives the context a span id.
    pub fn set_span_id(&mut self, value: SpanId)
        ensures
            final(self)@ == old(self)@.insert(SPAN_ID@, hex_string(value as nat)),
            final(self).spec_span_id() == Some(value),
    {
        proof {
            lemma_written_reads_back(self@);
        }
        self.baggage.insert(String::from_str(SPAN_ID), format_hex(value));
    }

    /// The id of the parent span. `None` for a root, and where the text
    /// cannot be read.
    pub fn parent_span_id(&self) -> (r: Option<u64>)
        ensures
            r == self.spec_parent_span_id(),
    {
        self.number(PARENT_SPAN_ID)
    }

    /// Names the parent span.
    pub fn set_parent_span_id(&mut self, value: u64)
        ensures
            final(self)@ == old(self)@.insert(PARENT_SPAN_ID@, hex_string(value as nat)),
            final(self).spec_parent_span_id() == Some(value),
    {
        proof {
            lemma_written_reads_back(self@);
        }
        self.baggage.insert(String::from_str(PARENT_SPAN_ID), format_hex(value));
    }

    /// The flags. `None` where the context has none or their text cannot be
    /// read.
    pub fn flags(&self) -> (r: Option<u64>)
        ensures
            r == baggage_flags(self@),
    {
        self.number(FLAGS)
    }

    /// Gives the context flags.
    pub fn set_flags(&mut self, value: u64)
        ensures
            final(self)@ == old(self)@.insert(FLAGS@, hex_string(value as nat)),
            baggage_flags(final(self)@) == Some(value),
    {
        proof {
            lemma_written_reads_back(self@);
        }
        self.baggage.insert(String::from_str(FLAGS), format_hex(value));
    }

    /// The sampling decision: `Some(true)` to record the trace, `Some(false)`
    /// not to, `None` where none was made or its text is neither `1` nor `0`.
    pub fn sampled(&self) -> (r: Option<bool>)
        ensures
            r == self.spec_sampled(),
    {
        proof {
            reveal_strlit("1");
            reveal_strlit("0");
        }
        match self.baggage.get(SAMPLED) {
            Some(text) => {
                assert("1"@ =~= seq!['1']);
                assert("0"@ =~= seq!['0']);
                if str_eq(text.as_str(), "1") {
                    Some(true)
                } else if str_eq(text.as_str(), "0") {
                    Some(false)
                } else {
                    None
                }
            },
            None => None,
        }
    }

    /// Records a sampling decision.
    pub fn set_sampled(&mut self, sampled: bool)
        ensures
            final(self)@ == old(self)@.insert(SAMPLED@, sampled_text(sampled)),
            final(self).spec_sampled() == Some(sampled),
    {
        proof {
            lemma_written_reads_back(self@);
        }
        proof {
            reveal_strlit("1");
            reveal_strlit("0");
        }
        assert("1"@ =~= seq!['1']);
        assert("0"@ =~= seq!['0']);
        let text = if sampled {
            String::from_str("1")
        } else {
            String::from_str("0")
        };
        assert(baggage_sampled(self@.insert(SAMPLED@, sampled_text(sampled))) == Some(sampled));
        self.baggage.insert(String::from_str(SAMPLED), text);
    }

    /// The value under a name.
    pub fn get(&self, name: &str) -> (r: Option<&String>)
        ensures
            match r {
                Some(v) => self@.contains_key(name@) && self@[name@] == v@,
                None => !self@.contains_key(name@),
            },
    {
        self.baggage.get(name)
    }

    /// Puts a value under a name and returns the value that was there.
    pub fn set(&mut self, name: String, value: String) -> (previous: Option<String>)
        ensures
            final(self)@ == old(self)@.insert(name@, value@),
            match previous {
                Some(v) => old(self)@.contains_key(name@) && old(self)@[name@] == v@,
                None => !old(self)@.contains_key(name@),
            },
    {
        self.baggage.insert(name, value)
    }

    /// Takes a name out and returns the value that was there.
    pub fn unset(&mut self, name: &str) -> (previous: Option<String>)
        ensures
            final(self)@ == old(self)@.remove(name@),
            match previous {
                Some(v) => old(self)@.contains_key(name@) && old(self)@[name@] == v@,
                None => !old(self)@.contains_key(name@),
            },
    {
        self.baggage.remove(name)
    }

    /// A context derived from `parent` with a fresh span id; a root where
    /// there is no parent.
    pub fn child(parent: Option<&SpanContext>) -> (r: Self)
        ensures
            exists|id: u64| id <= u32::MAX && r@ == child_baggage(parent_baggage(parent), id),
            r.spec_span_id() is Some,
            r.spec_trace_id() is Some,
            match parent {
                Some(p) => {
                    &&& r.spec_parent_span_id() == p.spec_span_id()
                    &&& p.spec_trace_id() is Some ==> r.spec_trace_id() == p.spec_trace_id()
                    &&& r.spec_sampled() == p.spec_sampled()
                },
                None => r.spec_parent_span_id() is None,
            },
    {
        let id: u64 = Self::generate_id();
        proof {
            match parent {
                Some(p) => {
                    lemma_child_identity(p@, id);
                },
                None => {
                    lemma_root_identity(id);
                },
            }
        }
        Self::child_with_id(parent, id)
    }

    /// The context derived from `parent` whose span id is `id`.
    pub fn child_with_id(parent: Option<&SpanContext>, id: u64) -> (r: Self)
        ensures
            r@ == child_baggage(parent_baggage(parent), id),
    {
        match parent {
            None => Self::with_id(id),
            Some(p) => {
                let mut child = SpanContext { baggage: p.baggage.clone() };
                let trace_id = match p.trace_id() {
                    Some(t) => t,
                    None => TraceId { low: id, high: 0 },
                };
                child.set_trace_id(trace_id);
                child.set_span_id(id);
                match p.span_id() {
                    Some(parent_id) => {
                        child.set_parent_span_id(parent_id);
                    },
                    None => {
                        child.baggage.remove(PARENT_SPAN_ID);
                    },
                }
                child
            },
        }
    }
}

impl Default for SpanContext {
    /// A context that carries nothing, not even an identity.
    fn default() -> (r: Self)
        ensures
            r@ == Map::<Seq<char>, Seq<char>>::empty(),
    {
        SpanContext { baggage: TextMap::new() }
    }
}

impl Clone for SpanContext {
    /// A context that carries the same.
    fn clone(&self) -> (r: Self)
        ensures
            r@ == self@,
    {
        SpanContext { baggage: self.baggage.clone() }
    }
}

} // verus!
