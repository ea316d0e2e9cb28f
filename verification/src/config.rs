//! The configuration of the service, resolved from the settings found in
//! its environment.

use vstd::prelude::*;
use vstd::string::StrSliceExecFns;

verus! {

/// The configuration of the service.
#[derive(Debug)]
pub struct Config {
    pub database_url: String,
    pub host: String,
    pub port: u16,
    pub env: String,
}

/// The host to listen on where none is set.
pub open spec fn default_host() -> Seq<char> {
    "127.0.0.1"@
}

/// The port to listen on where none is set, or where the setting is no
/// port number.
pub const DEFAULT_PORT: u16 = 3001;

/// The environment's name where none is set.
pub open spec fn default_env() -> Seq<char> {
    "development"@
}

/// A decimal digit.
pub open spec fn is_digit(c: char) -> bool {
    '0' <= c <= '9'
}

/// The number that a text of decimal digits denotes.
pub open spec fn digits_value(digits: Seq<char>) -> nat
    decreases digits.len(),
{
    if digits.len() == 0 {
        0
    } else {
        digits_value(digits.drop_last()) * 10 + (digits.last() as u32 - '0' as u32) as nat
    }
}

/// The text without the plus sign at its start, if it has one.
pub open spec fn unsigned_part(text: Seq<char>) -> Seq<char> {
    if text.len() > 0 && text[0] == '+' {
        text.subrange(1, text.len() as int)
    } else {
        text
    }
}

/// Every character is a decimal digit.
pub open spec fn all_digits(digits: Seq<char>) -> bool {
    forall|i: int| 0 <= i < digits.len() ==> is_digit(#[trigger] digits[i])
}

/// The port number that a text denotes: an optional plus sign and then one
/// or more decimal digits whose value is at most 65535.
pub open spec fn port_of(text: Seq<char>) -> Option<u16> {
    let digits = unsigned_part(text);
    if digits.len() > 0 && all_digits(digits) && digits_value(digits) <= u16::MAX {
        Some(digits_value(digits) as u16)
    } else {
        None
    }
}

/// A text of digits is worth at least as much as each of its beginnings.
proof fn lemma_digits_grow(digits: Seq<char>, k: int)
    requires
        0 <= k <= digits.len(),
    ensures
        digits_value(digits.take(k)) <= digits_value(digits),
    decreases digits.len(),
{
    if k == digits.len() {
        assert(digits.take(k) =~= digits);
    } else {
        lemma_digits_grow(digits.drop_last(), k);
        assert(digits.drop_last().take(k) =~= digits.take(k));
    }
}

/// Reads a port number.
pub fn parse_port(text: &str) -> (r: Option<u16>)
    ensures
        r == port_of(text@),
{
    let len = text.unicode_len();
    let start: usize = if len > 0 && text.get_char(0) == '+' {
        1
    } else {
        0
    };
    let ghost digits = unsigned_part(text@);
    proof {
        if start == 0 {
            assert(digits =~= text@.subrange(0, len as int));
        }
    }
    if start == len {
        return None;
    }
    let mut value: u32 = 0;
    let mut i: usize = start;
    proof {
        assert(digits.take(0) =~= Seq::empty());
    }
    while i < len
        invariant
            start <= i <= len,
            len == text@.len(),
            digits == unsigned_part(text@),
            digits == text@.subrange(start as int, len as int),
            forall|j: int| 0 <= j < i - start ==> is_digit(#[trigger] digits[j]),
            value == digits_value(digits.take(i - start)),
            value <= u16::MAX,
        decreases len - i,
    {
        let c = text.get_char(i);
        if !('0' <= c && c <= '9') {
            assert(!is_digit(digits[i - start]));
            return None;
        }
        let digit: u32 = c as u32 - '0' as u32;
        proof {
            let upto = digits.take(i - start + 1);
            assert(upto.drop_last() =~= digits.take(i - start));
            assert(upto.last() == c);
        }
        let next: u32 = value * 10 + digit;
        if next > 65535 {
            proof {
                lemma_digits_grow(digits, i - start + 1);
            }
            return None;
        }
        value = next;
        i += 1;
    }
    proof {
        assert(digits.take(len - start) =~= digits);
    }
    Some(value as u16)
}

impl Config {
    /// The configuration for the settings found: the database URL as it
    /// is, and for each other setting its value or its default. A port
    /// setting that is no port number counts as not set.
    pub fn resolve(
        database_url: String,
        host: Option<String>,
        port: Option<String>,
        env: Option<String>,
    ) -> (cfg: Config)
        ensures
            cfg.database_url@ == database_url@,
            cfg.host@ == (match host {
                Some(h) => h@,
                None => default_host(),
            }),
            cfg.port == (match port {
                Some(p) => match port_of(p@) {
                    Some(n) => n,
                    None => DEFAULT_PORT,
                },
                None => DEFAULT_PORT,
            }),
            cfg.env@ == (match env {
                Some(e) => e@,
                None => default_env(),
            }),
    {
        let host = match host {
            Some(h) => h,
            None => "127.0.0.1".to_owned(),
        };
        let port = match port {
            Some(p) => match parse_port(p.as_str()) {
                Some(n) => n,
                None => DEFAULT_PORT,
            },
            None => DEFAULT_PORT,
        };
        let env = match env {
            Some(e) => e,
            None => "development".to_owned(),
        };
        Config { database_url, host, port, env }
    }
}

} // verus!
