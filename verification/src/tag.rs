//! The values that tags and log fields hold.

use vstd::prelude::*;

verus! {

/// The value of a tag or of a log field.
///
/// A floating-point value is held by the bits of its IEEE 754 form, as
/// `to_bits` gives them.
#[derive(Debug, PartialEq)]
pub enum TagValue {
    String(String),
    Boolean(bool),
    I8(i8),
    I16(i16),
    I32(i32),
    I64(i64),
    U8(u8),
    U16(u16),
    U32(u32),
    U64(u64),
    /// The bits of a 32-bit floating-point number.
    F32(u32),
    /// The bits of a 64-bit floating-point number.
    F64(u64),
}

/// What a `TagValue` is to contracts: the same value, with text as a sequence
/// of characters.
pub enum TagModel {
    String(Seq<char>),
    Boolean(bool),
    I8(i8),
    I16(i16),
    I32(i32),
    I64(i64),
    U8(u8),
    U16(u16),
    U32(u32),
    U64(u64),
    F32(u32),
    F64(u64),
}

impl View for TagValue {
    type V = TagModel;

    open spec fn view(&self) -> TagModel {
        match self {
            TagValue::String(s) => TagModel::String(s@),
            TagValue::Boolean(b) => TagModel::Boolean(*b),
            TagValue::I8(v) => TagModel::I8(*v),
            TagValue::I16(v) => TagModel::I16(*v),
            TagValue::I32(v) => TagModel::I32(*v),
            TagValue::I64(v) => TagModel::I64(*v),
            TagValue::U8(v) => TagModel::U8(*v),
            TagValue::U16(v) => TagModel::U16(*v),
            TagValue::U32(v) => TagModel::U32(*v),
            TagValue::U64(v) => TagModel::U64(*v),
            TagValue::F32(bits) => TagModel::F32(*bits),
            TagValue::F64(bits) => TagModel::F64(*bits),
        }
    }
}

impl Clone for TagValue {
    /// The same value once more.
    fn clone(&self) -> (r: Self)
        ensures
            r@ == self@,
    {
        match self {
            TagValue::String(s) => TagValue::String(s.clone()),
            TagValue::Boolean(b) => TagValue::Boolean(*b),
            TagValue::I8(v) => TagValue::I8(*v),
            TagValue::I16(v) => TagValue::I16(*v),
            TagValue::I32(v) => TagValue::I32(*v),
            TagValue::I64(v) => TagValue::I64(*v),
            TagValue::U8(v) => TagValue::U8(*v),
            TagValue::U16(v) => TagValue::U16(*v),
            TagValue::U32(v) => TagValue::U32(*v),
            TagValue::U64(v) => TagValue::U64(*v),
            TagValue::F32(bits) => TagValue::F32(*bits),
            TagValue::F64(bits) => TagValue::F64(*bits),
        }
    }
}

} // verus!
