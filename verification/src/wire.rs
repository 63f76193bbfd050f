//! The records that spans are reported as: one batch holds the reporting
//! process and its spans, in the shape of the agent's wire schema.

use vstd::prelude::*;

verus! {

/// The views of the items of a sequence, in order.
pub open spec fn views<T: View>(s: Seq<T>) -> Seq<T::V> {
    Seq::new(s.len(), |i: int| s[i]@)
}

/// The signed 64-bit number with the same bits as `value`: the value itself
/// up to `i64::MAX`, and `value - 2^64` above.
pub open spec fn wire_long(value: u64) -> i64 {
    if value <= i64::MAX {
        value as i64
    } else {
        (value - 0x1_0000_0000_0000_0000) as i64
    }
}

/// Takes an unsigned 64-bit number onto the wire, where every integer is a
/// signed one of 64 bits: the bits stay as they are.
pub fn to_wire_long(value: u64) -> (r: i64)
    ensures
        r == wire_long(value),
{
    if value <= 0x7fff_ffff_ffff_ffff {
        value as i64
    } else {
        let rest: u64 = value - 0x8000_0000_0000_0000;
        (rest as i64) + i64::MIN
    }
}

/// The bits of a floating-point number, with the width that they came in.
/// On the wire every such value is a double.
#[derive(Clone, Copy, Debug, PartialEq, Eq, Structural)]
pub enum FloatBits {
    /// The bits of a 32-bit number, to be widened.
    Single(u32),
    /// The bits of a 64-bit number.
    Double(u64),
}

/// The value of a tag on the wire, one variant for each wire type in use.
#[derive(Debug, PartialEq)]
pub enum WireValue {
    String(String),
    Double(FloatBits),
    Bool(bool),
    Long(i64),
}

/// What a `WireValue` is to contracts.
pub enum WireValueModel {
    String(Seq<char>),
    Double(FloatBits),
    Bool(bool),
    Long(i64),
}

impl View for WireValue {
    type V = WireValueModel;

    open spec fn view(&self) -> WireValueModel {
        match self {
            WireValue::String(s) => WireValueModel::String(s@),
            WireValue::Double(bits) => WireValueModel::Double(*bits),
            WireValue::Bool(b) => WireValueModel::Bool(*b),
            WireValue::Long(v) => WireValueModel::Long(*v),
        }
    }
}

impl Clone for WireValue {
    /// The same value once more.
    fn clone(&self) -> (r: Self)
        ensures
            r@ == self@,
    {
        match self {
            WireValue::String(s) => WireValue::String(s.clone()),
            WireValue::Double(bits) => WireValue::Double(*bits),
            WireValue::Bool(b) => WireValue::Bool(*b),
            WireValue::Long(v) => WireValue::Long(*v),
        }
    }
}

/// A tag on the wire.
#[derive(Debug, PartialEq)]
pub struct WireTag {
    pub key: String,
    pub value: WireValue,
}

/// What a `WireTag` is to contracts.
pub struct WireTagModel {
    pub key: Seq<char>,
    pub value: WireValueModel,
}

impl View for WireTag {
    type V = WireTagModel;

    open spec fn view(&self) -> WireTagModel {
        WireTagModel { key: self.key@, value: self.value@ }
    }
}

impl Clone for WireTag {
    /// The same tag once more.
    fn clone(&self) -> (r: Self)
        ensures
            r@ == self@,
    {
        WireTag { key: self.key.clone(), value: self.value.clone() }
    }
}

/// A copy of a list of tags.
pub fn clone_tags(tags: &Vec<WireTag>) -> (r: Vec<WireTag>)
    ensures
        views(r@) == views(tags@),
{
    let mut copy: Vec<WireTag> = Vec::new();
    let mut i: usize = 0;
    while i < tags.len()
        invariant
            i <= tags@.len(),
            copy@.len() == i,
            forall|j: int| 0 <= j < i ==> (#[trigger] copy@[j])@ == tags@[j]@,
        decreases tags@.len() - i,
    {
        copy.push(tags[i].clone());
        i = i + 1;
    }
    assert(views(copy@) =~= views(tags@));
    copy
}

/// A log entry on the wire: a time and the entry's fields.
#[derive(Debug, PartialEq)]
pub struct WireLog {
    pub timestamp: i64,
    pub fields: Vec<WireTag>,
}

/// What a `WireLog` is to contracts.
pub struct WireLogModel {
    pub timestamp: i64,
    pub fields: Seq<WireTagModel>,
}

impl View for WireLog {
    type V = WireLogModel;

    open spec fn view(&self) -> WireLogModel {
        WireLogModel { timestamp: self.timestamp, fields: views(self.fields@) }
    }
}

/// How a span relates to the span that it refers to.
#[derive(Clone, Copy, Debug, PartialEq, Eq, Structural)]
pub enum SpanRefType {
    ChildOf,
    FollowsFrom,
}

/// A reference from one span to another.
#[derive(Clone, Copy, Debug, PartialEq, Eq, Structural)]
pub struct WireSpanRef {
    pub ref_type: SpanRefType,
    pub trace_id_low: i64,
    pub trace_id_high: i64,
    pub span_id: i64,
}

/// A span on the wire.
#[derive(Debug, PartialEq)]
pub struct WireSpan {
    pub trace_id_low: i64,
    pub trace_id_high: i64,
    pub span_id: i64,
    /// 0 where the span has no parent.
    pub parent_span_id: i64,
    pub operation_name: String,
    pub references: Option<Vec<WireSpanRef>>,
    /// 1 where the span is sampled, else 0.
    pub flags: i32,
    pub start_time: i64,
    pub duration: i64,
    pub tags: Option<Vec<WireTag>>,
    pub logs: Option<Vec<WireLog>>,
    pub incomplete: Option<bool>,
}

/// What a `WireSpan` is to contracts.
pub struct WireSpanModel {
    pub trace_id_low: i64,
    pub trace_id_high: i64,
    pub span_id: i64,
    pub parent_span_id: i64,
    pub operation_name: Seq<char>,
    pub references: Option<Seq<WireSpanRef>>,
    pub flags: i32,
    pub start_time: i64,
    pub duration: i64,
    pub tags: Option<Seq<WireTagModel>>,
    pub logs: Option<Seq<WireLogModel>>,
    pub incomplete: Option<bool>,
}

impl View for WireSpan {
    type V = WireSpanModel;

    open spec fn view(&self) -> WireSpanModel {
        WireSpanModel {
            trace_id_low: self.trace_id_low,
            trace_id_high: self.trace_id_high,
            span_id: self.span_id,
            parent_span_id: self.parent_span_id,
            operation_name: self.operation_name@,
            references: match self.references {
                Some(refs) => Some(refs@),
                None => None,
            },
            flags: self.flags,
            start_time: self.start_time,
            duration: self.duration,
            tags: match self.tags {
                Some(tags) => Some(views(tags@)),
                None => None,
            },
            logs: match self.logs {
                Some(logs) => Some(views(logs@)),
                None => None,
            },
            incomplete: self.incomplete,
        }
    }
}

/// The process that reports: the name of its service and the tags that
/// describe it.
#[derive(Debug, PartialEq)]
pub struct WireProcess {
    pub service_name: String,
    pub tags: Option<Vec<WireTag>>,
}

/// What a `WireProcess` is to contracts.
pub struct WireProcessModel {
    pub service_name: Seq<char>,
    pub tags: Option<Seq<WireTagModel>>,
}

impl View for WireProcess {
    type V = WireProcessModel;

    open spec fn view(&self) -> WireProcessModel {
        WireProcessModel {
            service_name: self.service_name@,
            tags: match self.tags {
                Some(tags) => Some(views(tags@)),
                None => None,
            },
        }
    }
}

impl Clone for WireProcess {
    /// The same process once more.
    fn clone(&self) -> (r: Self)
        ensures
            r@ == self@,
    {
        let tags = match &self.tags {
            Some(tags) => Some(clone_tags(tags)),
            None => None,
        };
        WireProcess { service_name: self.service_name.clone(), tags }
    }
}

/// What is sent at once: the process and spans of it.
#[derive(Debug, PartialEq)]
pub struct WireBatch {
    pub process: WireProcess,
    pub spans: Vec<WireSpan>,
}

/// What a `WireBatch` is to contracts.
pub struct WireBatchModel {
    pub process: WireProcessModel,
    pub spans: Seq<WireSpanModel>,
}

impl View for WireBatch {
    type V = WireBatchModel;

    open spec fn view(&self) -> WireBatchModel {
        WireBatchModel { process: self.process@, spans: views(self.spans@) }
    }
}

} // verus!
