//! Hexadecimal text for 64-bit identifiers.

use vstd::prelude::*;

verus! {

/// Why a text is not the hexadecimal form of a 64-bit number.
#[derive(Clone, Copy, Debug, PartialEq, Eq, Structural)]
pub enum ParseHexError {
    /// The text has no characters.
    Empty,
    /// Some character is not one of `0-9`, `a-f`, `A-F`.
    InvalidDigit,
    /// Every character is a digit, but the number is above `u64::MAX`.
    Overflow,
}

/// One of `0-9`, `a-f`, `A-F`.
pub open spec fn is_hex_digit(c: char) -> bool {
    ('0' <= c && c <= '9') || ('a' <= c && c <= 'f') || ('A' <= c && c <= 'F')
}

/// The number that a hexadecimal digit stands for; 0 for any other character.
pub open spec fn hex_digit_value(c: char) -> nat {
    if '0' <= c && c <= '9' {
        (c as int - '0' as int) as nat
    } else if 'a' <= c && c <= 'f' {
        (c as int - 'a' as int + 10) as nat
    } else if 'A' <= c && c <= 'F' {
        (c as int - 'A' as int + 10) as nat
    } else {
        0
    }
}

/// The lower-case digit for a number below 16.
pub open spec fn hex_digit_char(d: nat) -> char {
    if d == 0 {
        '0'
    } else if d == 1 {
        '1'
    } else if d == 2 {
        '2'
    } else if d == 3 {
        '3'
    } else if d == 4 {
        '4'
    } else if d == 5 {
        '5'
    } else if d == 6 {
        '6'
    } else if d == 7 {
        '7'
    } else if d == 8 {
        '8'
    } else if d == 9 {
        '9'
    } else if d == 10 {
        'a'
    } else if d == 11 {
        'b'
    } else if d == 12 {
        'c'
    } else if d == 13 {
        'd'
    } else if d == 14 {
        'e'
    } else {
        'f'
    }
}

/// Every character of `s` is a hexadecimal digit.
pub open spec fn all_hex_digits(s: Seq<char>) -> bool {
    forall|i: int| 0 <= i < s.len() ==> is_hex_digit(#[trigger] s[i])
}

/// The number that the digits of `s` write in base 16, most significant digit
/// first. The empty text writes 0.
pub open spec fn digits_value(s: Seq<char>) -> nat
    decreases s.len(),
{
    if s.len() == 0 {
        0
    } else {
        16 * digits_value(s.drop_last()) + hex_digit_value(s.last())
    }
}

/// What reading `s` as a hexadecimal 64-bit number gives: the number where
/// `s` is one or more digits that write a number up to `u64::MAX`, leading
/// zeros allowed, and else the reason why there is none.
pub open spec fn parse_hex_spec(s: Seq<char>) -> Result<u64, ParseHexError> {
    if s.len() == 0 {
        Err(ParseHexError::Empty)
    } else if !all_hex_digits(s) {
        Err(ParseHexError::InvalidDigit)
    } else if digits_value(s) > u64::MAX {
        Err(ParseHexError::Overflow)
    } else {
        Ok(digits_value(s) as u64)
    }
}

/// The shortest lower-case hexadecimal form of `v`: no leading zero but for 0
/// itself, which is written `0`.
pub open spec fn hex_string(v: nat) -> Seq<char>
    decreases v,
{
    if v < 16 {
        seq![hex_digit_char(v)]
    } else {
        hex_string(v / 16).push(hex_digit_char(v % 16))
    }
}

/// The last `width` lower-case hexadecimal digits of `v`, zeros in front where
/// `v` has fewer.
pub open spec fn hex_string_padded(v: nat, width: nat) -> Seq<char>
    decreases width,
{
    if width == 0 {
        Seq::empty()
    } else {
        hex_string_padded(v / 16, (width - 1) as nat).push(hex_digit_char(v % 16))
    }
}

/// 16 to the power `n`.
pub open spec fn pow16(n: nat) -> nat
    decreases n,
{
    if n == 0 {
        1
    } else {
        16 * pow16((n - 1) as nat)
    }
}


/// The characters that a slice of ASCII bytes spells.
pub open spec fn ascii_text(bytes: Seq<u8>) -> Seq<char> {
    Seq::new(bytes.len(), |i: int| bytes[i] as char)
}

/// Appending one digit multiplies the value by 16 and adds the digit.
pub proof fn lemma_digits_value_push(s: Seq<char>, c: char)
    ensures
        digits_value(s.push(c)) == 16 * digits_value(s) + hex_digit_value(c),
{
    assert(s.push(c).drop_last() =~= s);
}

/// The digit written for a number below 16 reads back as that number.
pub proof fn lemma_hex_digit_roundtrip(d: nat)
    requires
        d < 16,
    ensures
        is_hex_digit(hex_digit_char(d)),
        hex_digit_value(hex_digit_char(d)) == d,
{
}

/// A text of `n` digits writes a number below `16^n`.
pub proof fn lemma_digits_value_bound(s: Seq<char>)
    ensures
        digits_value(s) < pow16(s.len()),
    decreases s.len(),
{
    if s.len() > 0 {
        lemma_digits_value_bound(s.drop_last());
        assert(hex_digit_value(s.last()) < 16);
    }
}

/// `16^16` is one more than the largest 64-bit number.
pub proof fn lemma_pow16_of_16()
    ensures
        pow16(16) == 0x1_0000_0000_0000_0000,
{
    reveal_with_fuel(pow16, 17);
}

/// The shortest form of a number is made of digits and reads back as the number.
pub proof fn lemma_hex_string_reads_back(v: nat)
    ensures
        hex_string(v).len() >= 1,
        all_hex_digits(hex_string(v)),
        digits_value(hex_string(v)) == v,
    decreases v,
{
    if v < 16 {
        lemma_hex_digit_roundtrip(v);
        let s = seq![hex_digit_char(v)];
        assert(s.drop_last() =~= Seq::<char>::empty());
        assert(digits_value(s.drop_last()) == 0);
    } else {
        lemma_hex_string_reads_back(v / 16);
        lemma_hex_digit_roundtrip(v % 16);
        lemma_digits_value_push(hex_string(v / 16), hex_digit_char(v % 16));
    }
}

/// A number below `16^n` has a shortest form of at most `n` digits.
pub proof fn lemma_hex_string_len(v: nat, n: nat)
    requires
        n >= 1,
        v < pow16(n),
    ensures
        hex_string(v).len() <= n,
    decreases n,
{
    if v >= 16 {
        assert(n >= 2) by {
            reveal_with_fuel(pow16, 2);
        }
        lemma_hex_string_len(v / 16, (n - 1) as nat);
    }
}

/// The padded form has exactly `width` digits and reads back as the number
/// modulo `16^width`.
pub proof fn lemma_hex_string_padded_reads_back(v: nat, width: nat)
    ensures
        hex_string_padded(v, width).len() == width,
        all_hex_digits(hex_string_padded(v, width)),
        digits_value(hex_string_padded(v, width)) == v % pow16(width),
    decreases width,
{
    if width > 0 {
        let w = (width - 1) as nat;
        lemma_hex_string_padded_reads_back(v / 16, w);
        lemma_hex_digit_roundtrip(v % 16);
        lemma_digits_value_push(hex_string_padded(v / 16, w), hex_digit_char(v % 16));
        lemma_pow16_positive(w);
        lemma_mod_step(v, pow16(w));
    }
}

/// Powers of 16 are positive.
pub proof fn lemma_pow16_positive(n: nat)
    ensures
        pow16(n) > 0,
    decreases n,
{
    if n > 0 {
        lemma_pow16_positive((n - 1) as nat);
    }
}

/// Splitting off the last digit before and after reducing modulo `16 * p`.
proof fn lemma_mod_step(v: nat, p: nat)
    requires
        p > 0,
    ensures
        16 * ((v / 16) % p) + v % 16 == v % (16 * p),
{
    let q = v / 16;
    let r = v % 16;
    let a = q / p;
    let b = q % p;
    assert(q == a * p + b) by (nonlinear_arith)
        requires
            a == q / p,
            b == q % p,
            p > 0,
    ;
    assert(v == (16 * p) * a + (16 * b + r)) by (nonlinear_arith)
        requires
            v == 16 * q + r,
            q == a * p + b,
    ;
    assert(0 <= 16 * b + r < 16 * p) by (nonlinear_arith)
        requires
            0 <= b < p,
            0 <= r < 16,
    ;
    vstd::arithmetic::div_mod::lemma_fundamental_div_mod_converse(
        v as int,
        (16 * p) as int,
        a as int,
        (16 * b + r) as int,
    );
}

/// Reads the bytes from `start` up to `end` as the ASCII text of a hexadecimal
/// number.
pub fn parse_hex_bytes(bytes: &[u8], start: usize, end: usize) -> (r: Result<u64, ParseHexError>)
    requires
        start <= end <= bytes@.len(),
    ensures
        r == parse_hex_spec(ascii_text(bytes@.subrange(start as int, end as int))),
{
    let ghost text = ascii_text(bytes@.subrange(start as int, end as int));
    if start == end {
        return Err(ParseHexError::Empty);
    }
    let mut acc: u64 = 0;
    let mut overflow = false;
    let mut i: usize = start;
    while i < end
        invariant
            start <= i <= end <= bytes@.len(),
            text == ascii_text(bytes@.subrange(start as int, end as int)),
            all_hex_digits(text.subrange(0, i - start)),
            !overflow ==> acc == digits_value(text.subrange(0, i - start)),
            overflow ==> digits_value(text.subrange(0, i - start)) > u64::MAX,
        decreases end - i,
    {
        let b: u8 = bytes[i];
        let ghost c = text[i - start];
        assert(c == b as char);
        let d: u64;
        if 48 <= b && b <= 57 {
            d = (b - 48) as u64;
        } else if 97 <= b && b <= 102 {
            d = (b - 87) as u64;
        } else if 65 <= b && b <= 70 {
            d = (b - 55) as u64;
        } else {
            assert(!is_hex_digit(c));
            return Err(ParseHexError::InvalidDigit);
        }
        assert(is_hex_digit(c) && hex_digit_value(c) == d);
        proof {
            let before = text.subrange(0, i - start);
            let after = text.subrange(0, i + 1 - start);
            assert(after =~= before.push(c));
            lemma_digits_value_push(before, c);
        }
        if !overflow {
            if acc > (u64::MAX - d) / 16 {
                overflow = true;
            } else {
                acc = acc * 16 + d;
            }
        }
        i = i + 1;
    }
    proof {
        assert(text.subrange(0, end - start) =~= text);
    }
    if overflow {
        Err(ParseHexError::Overflow)
    } else {
        Ok(acc)
    }
}

/// Reads a text as a hexadecimal 64-bit number. Digits of either case are
/// taken, leading zeros too; a sign, a prefix or a blank is not.
pub fn convert_hex_to_u64(value: &str) -> (r: Result<u64, ParseHexError>)
    ensures
        r == parse_hex_spec(value@),
{
    if !value.is_ascii() {
        proof {
            let i = choose|i: int|
                0 <= i < value@.len() && !('\0' <= #[trigger] value@[i] && value@[i] <= '\u{7f}');
            assert(!is_hex_digit(value@[i]));
        }
        return Err(ParseHexError::InvalidDigit);
    }
    let bytes = value.as_bytes();
    proof {
        vstd::string::is_ascii_spec_bytes(value);
        assert(bytes@.subrange(0, bytes@.len() as int) =~= bytes@);
        assert(ascii_text(bytes@) =~= value@);
    }
    parse_hex_bytes(bytes, 0, bytes.len())
}

/// The text of one lower-case hexadecimal digit.
fn hex_digit_str(d: u64) -> (s: &'static str)
    requires
        d < 16,
    ensures
        s@ == seq![hex_digit_char(d as nat)],
{
    proof {
        reveal_strlit("0");
        reveal_strlit("1");
        reveal_strlit("2");
        reveal_strlit("3");
        reveal_strlit("4");
        reveal_strlit("5");
        reveal_strlit("6");
        reveal_strlit("7");
        reveal_strlit("8");
        reveal_strlit("9");
        reveal_strlit("a");
        reveal_strlit("b");
        reveal_strlit("c");
        reveal_strlit("d");
        reveal_strlit("e");
        reveal_strlit("f");
    }
    let s = if d == 0 {
        "0"
    } else if d == 1 {
        "1"
    } else if d == 2 {
        "2"
    } else if d == 3 {
        "3"
    } else if d == 4 {
        "4"
    } else if d == 5 {
        "5"
    } else if d == 6 {
        "6"
    } else if d == 7 {
        "7"
    } else if d == 8 {
        "8"
    } else if d == 9 {
        "9"
    } else if d == 10 {
        "a"
    } else if d == 11 {
        "b"
    } else if d == 12 {
        "c"
    } else if d == 13 {
        "d"
    } else if d == 14 {
        "e"
    } else {
        "f"
    };
    assert(s@ =~= seq![hex_digit_char(d as nat)]);
    s
}

/// Writes a number in lower-case hexadecimal, as short as it can be.
pub fn format_hex(value: u64) -> (s: String)
    ensures
        s@ == hex_string(value as nat),
    decreases value,
{
    if value < 16 {
        String::from_str(hex_digit_str(value))
    } else {
        let front = format_hex(value / 16);
        let s = front.concat(hex_digit_str(value % 16));
        assert(s@ =~= hex_string((value / 16) as nat).push(hex_digit_char((value % 16) as nat)));
        s
    }
}

/// Writes the last `width` hexadecimal digits of a number, in lower case, with
/// zeros in front where the number has fewer.
pub fn format_hex_padded(value: u64, width: usize) -> (s: String)
    ensures
        s@ == hex_string_padded(value as nat, width as nat),
    decreases width,
{
    if width == 0 {
        String::new()
    } else {
        let front = format_hex_padded(value / 16, width - 1);
        let s = front.concat(hex_digit_str(value % 16));
        assert(s@ =~= hex_string_padded((value / 16) as nat, (width - 1) as nat).push(
            hex_digit_char((value % 16) as nat),
        ));
        s
    }
}

} // verus!
