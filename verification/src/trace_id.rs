//! Trace and span identifiers and their text form.

use crate::hex::{
    all_hex_digits, ascii_text, digits_value, format_hex, format_hex_padded, hex_string,
    hex_string_padded, is_hex_digit, lemma_digits_value_bound, lemma_hex_string_len,
    lemma_hex_string_padded_reads_back, lemma_hex_string_reads_back, lemma_pow16_of_16,
    parse_hex_bytes, parse_hex_spec, pow16, ParseHexError,
};
use vstd::prelude::*;

verus! {

/// Identifies one span within its trace.
pub type SpanId = u64;

/// Identifies a trace: 128 bits in two halves. A `high` of 0 marks a trace id
/// of 64 bits only.
#[derive(Clone, Copy, Debug, PartialEq, Eq, Structural)]
pub struct TraceId {
    pub low: u64,
    pub high: u64,
}

/// The text of a trace id. With a `high` of 0 it is `low` in hexadecimal, as
/// short as it can be. Otherwise it is `high` in hexadecimal followed by the
/// 16 digits of `low`, so that the halves can be told apart again.
pub open spec fn trace_id_text(id: TraceId) -> Seq<char> {
    if id.high == 0 {
        hex_string(id.low as nat)
    } else {
        hex_string(id.high as nat) + hex_string_padded(id.low as nat, 16)
    }
}

/// The trace id that a text stands for. Up to 16 digits are `low`, with a
/// `high` of 0. Of a longer text the last 16 digits are `low` and what stands
/// before them is `high`.
pub open spec fn trace_id_parse_spec(s: Seq<char>) -> Result<TraceId, ParseHexError> {
    if s.len() == 0 {
        Err(ParseHexError::Empty)
    } else if !all_hex_digits(s) {
        Err(ParseHexError::InvalidDigit)
    } else if s.len() > 16 {
        let split = s.len() - 16;
        if digits_value(s.subrange(0, split)) > u64::MAX {
            Err(ParseHexError::Overflow)
        } else {
            Ok(
                TraceId {
                    low: digits_value(s.subrange(split, s.len() as int)) as u64,
                    high: digits_value(s.subrange(0, split)) as u64,
                },
            )
        }
    } else {
        Ok(TraceId { low: digits_value(s) as u64, high: 0 })
    }
}

/// A number written in its shortest form reads back as itself.
pub proof fn lemma_hex_roundtrip(v: u64)
    ensures
        parse_hex_spec(hex_string(v as nat)) == Ok::<u64, ParseHexError>(v),
        hex_string(v as nat).len() <= 16,
{
    lemma_hex_string_reads_back(v as nat);
    lemma_pow16_of_16();
    lemma_hex_string_len(v as nat, 16);
}

/// A text of at most 16 digits writes a number that fits in 64 bits.
pub proof fn lemma_sixteen_digits_fit(s: Seq<char>)
    requires
        s.len() <= 16,
    ensures
        digits_value(s) <= u64::MAX,
{
    lemma_digits_value_bound(s);
    lemma_pow16_of_16();
    lemma_pow16_monotonic(s.len(), 16);
}

/// Powers of 16 grow with the exponent.
pub proof fn lemma_pow16_monotonic(a: nat, b: nat)
    requires
        a <= b,
    ensures
        pow16(a) <= pow16(b),
    decreases b,
{
    if a < b {
        lemma_pow16_monotonic(a, (b - 1) as nat);
    }
}

/// Reading the text of a trace id gives the trace id back, whether it has a
/// high half or not.
pub proof fn lemma_trace_id_roundtrip(id: TraceId)
    ensures
        trace_id_parse_spec(trace_id_text(id)) == Ok::<TraceId, ParseHexError>(id),
{
    let text = trace_id_text(id);
    lemma_hex_string_reads_back(id.low as nat);
    lemma_hex_string_reads_back(id.high as nat);
    lemma_pow16_of_16();
    if id.high == 0 {
        lemma_hex_string_len(id.low as nat, 16);
    } else {
        let front = hex_string(id.high as nat);
        let back = hex_string_padded(id.low as nat, 16);
        lemma_hex_string_padded_reads_back(id.low as nat, 16);
        assert(text.len() == front.len() + 16);
        assert(text.subrange(0, text.len() - 16) =~= front);
        assert(text.subrange(text.len() - 16, text.len() as int) =~= back);
        assert((id.low as nat) % pow16(16) == id.low as nat);
        assert(all_hex_digits(text)) by {
            assert forall|i: int| 0 <= i < text.len() implies is_hex_digit(#[trigger] text[i]) by {
                if i < front.len() {
                    assert(text[i] == front[i]);
                } else {
                    assert(text[i] == back[i - front.len()]);
                }
            }
        }
    }
}

impl TraceId {
    /// Writes the trace id as text.
    pub fn to_hex_string(&self) -> (s: String)
        ensures
            s@ == trace_id_text(*self),
    {
        if self.high > 0 {
            let front = format_hex(self.high);
            let back = format_hex_padded(self.low, 16);
            front.concat(back.as_str())
        } else {
            format_hex(self.low)
        }
    }

    /// Reads a trace id from its text.
    pub fn try_from(value: &str) -> (r: Result<TraceId, ParseHexError>)
        ensures
            r == trace_id_parse_spec(value@),
    {
        if !value.is_ascii() {
            proof {
                let i = choose|i: int|
                    0 <= i < value@.len() && !('\0' <= #[trigger] value@[i] && value@[i]
                        <= '\u{7f}');
                assert(!is_hex_digit(value@[i]));
            }
            return Err(ParseHexError::InvalidDigit);
        }
        let bytes = value.as_bytes();
        let n = bytes.len();
        proof {
            vstd::string::is_ascii_spec_bytes(value);
            assert(ascii_text(bytes@) =~= value@);
        }
        if n > 16 {
            let split = n - 16;
            let high = parse_hex_bytes(bytes, 0, split);
            let low = parse_hex_bytes(bytes, split, n);
            let ghost front = value@.subrange(0, split as int);
            let ghost back = value@.subrange(split as int, n as int);
            proof {
                assert(ascii_text(bytes@.subrange(0, split as int)) =~= front);
                assert(ascii_text(bytes@.subrange(split as int, n as int)) =~= back);
                lemma_sixteen_digits_fit(back);
                if all_hex_digits(front) && all_hex_digits(back) {
                    assert forall|i: int| 0 <= i < value@.len() implies is_hex_digit(
                        #[trigger] value@[i],
                    ) by {
                        if i < split {
                            assert(value@[i] == front[i]);
                        } else {
                            assert(value@[i] == back[i - split]);
                        }
                    }
                }
                if all_hex_digits(value@) {
                    assert forall|i: int| 0 <= i < front.len() implies is_hex_digit(
                        #[trigger] front[i],
                    ) by {
                        assert(front[i] == value@[i]);
                    }
                    assert forall|i: int| 0 <= i < back.len() implies is_hex_digit(
                        #[trigger] back[i],
                    ) by {
                        assert(back[i] == value@[i + split]);
                    }
                }
            }
            match (high, low) {
                (Ok(high), Ok(low)) => Ok(TraceId { low, high }),
                (Err(ParseHexError::InvalidDigit), _) => Err(ParseHexError::InvalidDigit),
                (_, Err(ParseHexError::InvalidDigit)) => Err(ParseHexError::InvalidDigit),
                _ => Err(ParseHexError::Overflow),
            }
        } else {
            proof {
                assert(bytes@.subrange(0, n as int) =~= bytes@);
                lemma_sixteen_digits_fit(value@);
            }
            match parse_hex_bytes(bytes, 0, n) {
                Ok(low) => Ok(TraceId { low, high: 0 }),
                Err(e) => Err(e),
            }
        }
    }
}

} // verus!
