//! Where the agent listens and what the reporting service is called, with
//! the values that hold where none is given.

use vstd::prelude::*;

verus! {

/// The agent's host where none is given.
pub const DEFAULT_AGENT_HOST: &'static str = "127.0.0.1";

/// The agent's port where none is given, or where what is given is no port.
pub const DEFAULT_AGENT_PORT: u16 = 6831;

/// The service's name where neither a name nor the name of the executable is
/// known.
pub const DEFAULT_SERVICE_NAME: &'static str = "rust";

/// One of `0` to `9`.
pub open spec fn is_decimal_digit(c: char) -> bool {
    '0' <= c && c <= '9'
}

/// Every character of `s` is a decimal digit.
pub open spec fn all_decimal_digits(s: Seq<char>) -> bool {
    forall|i: int| 0 <= i < s.len() ==> is_decimal_digit(#[trigger] s[i])
}

/// The number that the digits of `s` write in base 10.
pub open spec fn decimal_value(s: Seq<char>) -> nat
    decreases s.len(),
{
    if s.len() == 0 {
        0
    } else {
        10 * decimal_value(s.drop_last()) + (s.last() as int - '0' as int) as nat
    }
}

/// The digits of a number's text: the text without its plus sign, where it
/// begins with one.
pub open spec fn unsigned_digits(s: Seq<char>) -> Seq<char> {
    if s.len() > 0 && s[0] == '+' {
        s.subrange(1, s.len() as int)
    } else {
        s
    }
}

/// The port that a text names: `Some` where the text is one or more decimal
/// digits that write a number up to 65535, with or without one plus sign in
/// front, and `None` for any other text.
pub open spec fn port_of(s: Seq<char>) -> Option<u16> {
    let digits = unsigned_digits(s);
    if digits.len() > 0 && all_decimal_digits(digits) && decimal_value(digits) <= u16::MAX {
        Some(decimal_value(digits) as u16)
    } else {
        None
    }
}

/// Reads a port number.
pub fn parse_port(text: &str) -> (r: Option<u16>)
    ensures
        r == port_of(text@),
{
    let ghost digits = unsigned_digits(text@);
    if !text.is_ascii() {
        proof {
            let i = choose|i: int|
                0 <= i < text@.len() && !('\0' <= #[trigger] text@[i] && text@[i] <= '\u{7f}');
            if digits.len() == text@.len() {
                assert(!is_decimal_digit(digits[i]));
            } else {
                assert(i >= 1);
                assert(digits[i - 1] == text@[i]);
                assert(!is_decimal_digit(digits[i - 1]));
            }
        }
        return None;
    }
    let bytes = text.as_bytes();
    proof {
        vstd::string::is_ascii_spec_bytes(text);
    }
    let start: usize = if bytes.len() > 0 && bytes[0] == 43 {
        assert(text@[0] as u8 == bytes@[0]);
        1
    } else {
        proof {
            if bytes@.len() > 0 {
                assert(text@[0] as u8 == bytes@[0]);
            }
        }
        0
    };
    assert(digits =~= text@.subrange(start as int, text@.len() as int));
    if start == bytes.len() {
        return None;
    }
    let mut acc: u32 = 0;
    let mut i: usize = start;
    while i < bytes.len()
        invariant
            start <= i <= bytes@.len(),
            bytes@.len() == text@.len(),
            digits == unsigned_digits(text@),
            digits == text@.subrange(start as int, text@.len() as int),
            forall|j: int| 0 <= j < bytes@.len() ==> bytes@[j] == text@[j] as u8,
            forall|j: int| 0 <= j < text@.len() ==> '\0' <= #[trigger] text@[j] <= '\u{7f}',
            all_decimal_digits(digits.subrange(0, i - start)),
            acc <= u16::MAX,
            acc == decimal_value(digits.subrange(0, i - start)),
        decreases bytes@.len() - i,
    {
        let b: u8 = bytes[i];
        let ghost c = digits[i - start];
        assert(c == text@[i as int]);
        assert(c as u8 == b);
        proof {
            let before = digits.subrange(0, i - start);
            let after = digits.subrange(0, i + 1 - start);
            assert(after.drop_last() =~= before);
            assert(after.last() == c);
        }
        if !(48 <= b && b <= 57) {
            assert(!is_decimal_digit(c));
            return None;
        }
        let d: u32 = (b - 48) as u32;
        acc = acc * 10 + d;
        if acc > 65535 {
            proof {
                lemma_decimal_value_prefix(digits, i + 1 - start);
            }
            return None;
        }
        i = i + 1;
    }
    proof {
        assert(digits.subrange(0, i - start) =~= digits);
    }
    Some(acc as u16)
}

/// A longer text of digits never writes a smaller number than its beginning.
pub proof fn lemma_decimal_value_prefix(s: Seq<char>, n: int)
    requires
        0 <= n <= s.len(),
    ensures
        decimal_value(s.subrange(0, n)) <= decimal_value(s),
    decreases s.len() - n,
{
    if n < s.len() {
        lemma_decimal_value_prefix(s, n + 1);
        assert(s.subrange(0, n + 1).drop_last() =~= s.subrange(0, n));
    } else {
        assert(s.subrange(0, n) =~= s);
    }
}

/// Where to send the batches and whom to name as their sender.
#[derive(Debug, PartialEq)]
pub struct AgentConfig {
    pub service_name: String,
    pub host: String,
    pub port: u16,
}

/// What an `AgentConfig` is to contracts.
pub struct AgentConfigModel {
    pub service_name: Seq<char>,
    pub host: Seq<char>,
    pub port: u16,
}

impl View for AgentConfig {
    type V = AgentConfigModel;

    open spec fn view(&self) -> AgentConfigModel {
        AgentConfigModel { service_name: self.service_name@, host: self.host@, port: self.port }
    }
}

/// A text that may be absent, as contracts see it.
pub open spec fn text_view(text: Option<String>) -> Option<Seq<char>> {
    match text {
        Some(t) => Some(t@),
        None => None,
    }
}

/// The configuration that the given settings make. The host is the one
/// given, else the default. The service is called by the name given, else by
/// the executable's name, else by the default. The port is the one that the
/// text names, and the default where there is no text or it names no port.
pub open spec fn resolved(
    host: Option<Seq<char>>,
    service_name: Option<Seq<char>>,
    executable: Option<Seq<char>>,
    port: Option<Seq<char>>,
) -> AgentConfigModel {
    AgentConfigModel {
        service_name: match service_name {
            Some(name) => name,
            None => match executable {
                Some(name) => name,
                None => DEFAULT_SERVICE_NAME@,
            },
        },
        host: match host {
            Some(h) => h,
            None => DEFAULT_AGENT_HOST@,
        },
        port: match port {
            Some(text) => match port_of(text) {
                Some(p) => p,
                None => DEFAULT_AGENT_PORT,
            },
            None => DEFAULT_AGENT_PORT,
        },
    }
}

impl AgentConfig {
    /// The configuration for the settings that were found, each of which may
    /// be missing.
    pub fn resolve(
        host: Option<String>,
        service_name: Option<String>,
        executable: Option<String>,
        port: Option<String>,
    ) -> (r: AgentConfig)
        ensures
            r@ == resolved(
                text_view(host),
                text_view(service_name),
                text_view(executable),
                text_view(port),
            ),
    {
        let service_name = match service_name {
            Some(name) => name,
            None => match executable {
                Some(name) => name,
                None => String::from_str(DEFAULT_SERVICE_NAME),
            },
        };
        let host = match host {
            Some(h) => h,
            None => String::from_str(DEFAULT_AGENT_HOST),
        };
        let port = match port {
            Some(text) => match parse_port(text.as_str()) {
                Some(p) => p,
                None => DEFAULT_AGENT_PORT,
            },
            None => DEFAULT_AGENT_PORT,
        };
        AgentConfig { service_name, host, port }
    }
}

} // verus!
