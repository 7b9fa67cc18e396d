//! Process configuration: raw optional settings assembled into an
//! `AppConfig`, with the port text read as a decimal number.
//!
//! Reading the environment itself is a boundary concern; this module holds
//! the decisions: the defaults, the port-number validation, and which
//! setting is required.

use vstd::prelude::*;
use vstd::string::StringSliceAdditionalSpecFns;

verus! {

broadcast use vstd::string::group_string_axioms, vstd::utf8::is_ascii_chars_encode_utf8;

/// Runtime configuration of the service process.
#[derive(Debug)]
pub struct AppConfig {
    pub host: String,
    pub port: u16,
    pub database_url: String,
}

/// `c` is a decimal digit.
pub open spec fn is_digit_char(c: char) -> bool {
    '0' <= c && c <= '9'
}

/// `s` is a non-empty run of decimal digits.
pub open spec fn is_digits(s: Seq<char>) -> bool {
    s.len() > 0 && forall|i: int| 0 <= i < s.len() ==> is_digit_char(#[trigger] s[i])
}

/// The numeric value of the digit `c`.
pub open spec fn digit_of(c: char) -> int {
    c as u8 - 48
}

/// The value of `s` read as a decimal numeral.
pub open spec fn digits_value(s: Seq<char>) -> int
    decreases s.len(),
{
    if s.len() == 0 {
        0
    } else {
        digits_value(s.drop_last()) * 10 + digit_of(s.last())
    }
}

proof fn lemma_digits_value_nonneg(s: Seq<char>)
    requires
        forall|i: int| 0 <= i < s.len() ==> is_digit_char(#[trigger] s[i]),
    ensures
        digits_value(s) >= 0,
    decreases s.len(),
{
    if s.len() > 0 {
        lemma_digits_value_nonneg(s.drop_last());
    }
}

/// A numeral is at least the value of any of its prefixes.
proof fn lemma_digits_prefix_le(s: Seq<char>, k: int)
    requires
        forall|i: int| 0 <= i < s.len() ==> is_digit_char(#[trigger] s[i]),
        0 <= k <= s.len(),
    ensures
        digits_value(s.take(k)) <= digits_value(s),
    decreases s.len() - k,
{
    if k < s.len() {
        assert(s.take(k + 1).drop_last() =~= s.take(k));
        lemma_digits_value_nonneg(s.take(k));
        assert(digits_value(s.take(k + 1)) == digits_value(s.take(k)) * 10 + digit_of(s[k]));
        lemma_digits_prefix_le(s, k + 1);
    } else {
        assert(s.take(k) =~= s);
    }
}

/// Reads `s` as a decimal `u16`: defined exactly on non-empty all-digit
/// strings whose value fits.
pub fn parse_u16(s: &str) -> (r: Option<u16>)
    ensures
        match r {
            Option::Some(v) => is_digits(s@) && v as int == digits_value(s@),
            Option::None => !(is_digits(s@) && digits_value(s@) <= u16::MAX),
        },
{
    if !s.is_ascii() {
        proof {
            assert(!is_digits(s@)) by {
                if is_digits(s@) {
                    assert forall|i: int| 0 <= i < s@.len() implies '\0' <= (#[trigger] s@[i])
                        && s@[i] <= '\u{7f}' by {
                        assert(is_digit_char(s@[i]));
                    }
                    assert(vstd::utf8::is_ascii_chars(s@));
                }
            }
        }
        return Option::None;
    }
    let bytes = s.as_bytes();
    let n = bytes.len();
    proof {
        assert(n == s@.len());
    }
    if n == 0 {
        return Option::None;
    }
    let mut k: usize = 0;
    while k < n
        invariant
            k <= n,
            n == s@.len(),
            n == bytes@.len(),
            bytes@ == s.spec_bytes(),
            vstd::string::is_ascii(s),
            forall|i: int| 0 <= i < k ==> is_digit_char(#[trigger] s@[i]),
        decreases n - k,
    {
        let b = bytes[k];
        proof {
            let c = s@[k as int];
            assert('\0' <= c <= '\u{7f}');
            assert(c as u8 == b);
        }
        if b < 48 || b > 57 {
            proof {
                assert(!is_digit_char(s@[k as int]));
            }
            return Option::None;
        }
        k = k + 1;
    }
    let mut acc: u32 = 0;
    k = 0;
    while k < n
        invariant
            k <= n,
            n == s@.len(),
            n == bytes@.len(),
            bytes@ == s.spec_bytes(),
            vstd::string::is_ascii(s),
            is_digits(s@),
            acc <= 65535,
            acc as int == digits_value(s@.take(k as int)),
        decreases n - k,
    {
        let b = bytes[k];
        proof {
            let c = s@[k as int];
            assert('\0' <= c <= '\u{7f}');
            assert(c as u8 == b);
            assert(is_digit_char(c));
            assert(48 <= b <= 57);
        }
        let d = (b as u32) - 48;
        let next = acc * 10 + d;
        proof {
            assert(s@.take(k as int + 1).drop_last() =~= s@.take(k as int));
            assert(digits_value(s@.take(k as int + 1)) == digits_value(s@.take(k as int)) * 10
                + digit_of(s@[k as int]));
        }
        if next > 65535 {
            proof {
                lemma_digits_prefix_le(s@, k as int + 1);
            }
            return Option::None;
        }
        acc = next;
        k = k + 1;
    }
    proof {
        assert(s@.take(n as int) =~= s@);
    }
    Option::Some(acc as u16)
}

/// The port text cannot be read as a `u16`.
pub open spec fn port_invalid(port_text: Option<String>) -> bool {
    match port_text {
        Option::Some(p) => !(is_digits(p@) && digits_value(p@) <= u16::MAX),
        Option::None => false,
    }
}

impl AppConfig {
    /// Assembles the configuration from the raw optional settings: the host
    /// defaults to `127.0.0.1`, the port text defaults to the value 8080 and
    /// must read as a decimal `u16`, and the database URL is required.
    pub fn from_parts(
        host: Option<String>,
        port_text: Option<String>,
        database_url: Option<String>,
    ) -> (r: Result<AppConfig, String>)
        ensures
            match r {
                Result::Ok(c) => {
                    &&& !port_invalid(port_text)
                    &&& c.host@ == match host {
                        Option::Some(h) => h@,
                        Option::None => "127.0.0.1"@,
                    }
                    &&& c.port as int == match port_text {
                        Option::Some(p) => digits_value(p@),
                        Option::None => 8080,
                    }
                    &&& database_url matches Option::Some(d) && c.database_url@ == d@
                },
                Result::Err(m) => {
                    if port_invalid(port_text) {
                        m@ == "APP_PORT must be a u16"@
                    } else {
                        database_url is None && m@ == "DATABASE_URL is required"@
                    }
                },
            },
    {
        let port: u16 = match port_text {
            Option::Some(p) => {
                match parse_u16(p.as_str()) {
                    Option::Some(v) => v,
                    Option::None => {
                        return Result::Err("APP_PORT must be a u16".to_owned());
                    },
                }
            },
            Option::None => 8080,
        };
        let database_url = match database_url {
            Option::Some(d) => d,
            Option::None => {
                return Result::Err("DATABASE_URL is required".to_owned());
            },
        };
        let host = match host {
            Option::Some(h) => h,
            Option::None => "127.0.0.1".to_owned(),
        };
        Result::Ok(AppConfig { host, port, database_url })
    }
}

} // verus!
