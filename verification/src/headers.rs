//! The names of the headers that carry a span's context.

use vstd::prelude::*;

verus! {

/// The header of a request's own identifier.
pub const REQUEST_ID: &'static str = "x-request-id";

/// The header of the trace id.
pub const TRACE_ID: &'static str = "x-b3-traceid";

/// The header of the span id.
pub const SPAN_ID: &'static str = "x-b3-spanid";

/// The header of the parent span's id.
pub const PARENT_SPAN_ID: &'static str = "x-b3-parentspanid";

/// The header of the sampling decision.
pub const SAMPLED: &'static str = "x-b3-sampled";

/// The header of the flags.
pub const FLAGS: &'static str = "x-b3-flags";

/// The header of a span context in one piece.
pub const OT_SPAN_CONTEXT: &'static str = "x-ot-span-context";

/// The headers that extraction reads, and no others.
pub open spec fn is_propagation_header(name: Seq<char>) -> bool {
    name == REQUEST_ID@ || name == TRACE_ID@ || name == SPAN_ID@ || name == PARENT_SPAN_ID@ || name
        == SAMPLED@ || name == FLAGS@ || name == OT_SPAN_CONTEXT@
}

/// The seven header names differ from one another.
pub proof fn lemma_header_names_differ()
    ensures
        REQUEST_ID@ != TRACE_ID@,
        REQUEST_ID@ != SPAN_ID@,
        REQUEST_ID@ != PARENT_SPAN_ID@,
        REQUEST_ID@ != SAMPLED@,
        REQUEST_ID@ != FLAGS@,
        REQUEST_ID@ != OT_SPAN_CONTEXT@,
        TRACE_ID@ != SPAN_ID@,
        TRACE_ID@ != PARENT_SPAN_ID@,
        TRACE_ID@ != SAMPLED@,
        TRACE_ID@ != FLAGS@,
        TRACE_ID@ != OT_SPAN_CONTEXT@,
        SPAN_ID@ != PARENT_SPAN_ID@,
        SPAN_ID@ != SAMPLED@,
        SPAN_ID@ != FLAGS@,
        SPAN_ID@ != OT_SPAN_CONTEXT@,
        PARENT_SPAN_ID@ != SAMPLED@,
        PARENT_SPAN_ID@ != FLAGS@,
        PARENT_SPAN_ID@ != OT_SPAN_CONTEXT@,
        SAMPLED@ != FLAGS@,
        SAMPLED@ != OT_SPAN_CONTEXT@,
        FLAGS@ != OT_SPAN_CONTEXT@,
{
    reveal_strlit("x-request-id");
    reveal_strlit("x-b3-traceid");
    reveal_strlit("x-b3-spanid");
    reveal_strlit("x-b3-parentspanid");
    reveal_strlit("x-b3-sampled");
    reveal_strlit("x-b3-flags");
    reveal_strlit("x-ot-span-context");
    assert(REQUEST_ID@.len() == 12 && TRACE_ID@.len() == 12 && SPAN_ID@.len() == 11);
    assert(PARENT_SPAN_ID@.len() == 17 && SAMPLED@.len() == 12 && FLAGS@.len() == 10);
    assert(OT_SPAN_CONTEXT@.len() == 17);
    assert(REQUEST_ID@[2] != TRACE_ID@[2]);
    assert(REQUEST_ID@[2] != SAMPLED@[2]);
    assert(TRACE_ID@[5] != SAMPLED@[5]);
    assert(PARENT_SPAN_ID@[2] != OT_SPAN_CONTEXT@[2]);
}

} // verus!
