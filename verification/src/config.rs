//! The settings of the service, read from the values of its environment.
//! Reading the environment itself is left to the caller.

use crate::text::{
    decimal, from_chars, is_ascii_digit, is_digit, lemma_until_char, push_decimal, skip_until,
    slice_chars, to_chars, trim, trimmed, until_char,
};
use vstd::prelude::*;
use vstd::string::StringExecFns;

verus! {

/// The names in a comma-separated list from index `start` on: every field
/// without the white space around it, the empty ones left out.
pub open spec fn names_from(s: Seq<char>, start: int) -> Seq<Seq<char>>
    decreases s.len() + 1 - start,
{
    if start < 0 || start > s.len() {
        Seq::empty()
    } else {
        proof {
            lemma_until_char(s, start, ',');
        }
        let end = until_char(s, start, ',');
        let name = trimmed(s.subrange(start, end));
        let rest = if end < s.len() {
            names_from(s, end + 1)
        } else {
            Seq::empty()
        };
        if name.len() > 0 {
            seq![name] + rest
        } else {
            rest
        }
    }
}

/// The names in a comma-separated list.
pub open spec fn server_names_of(raw: Seq<char>) -> Seq<Seq<char>> {
    names_from(raw, 0)
}

/// The views of a vector of texts.
pub open spec fn text_views(v: Seq<String>) -> Seq<Seq<char>> {
    Seq::new(v.len(), |i: int| v[i]@)
}

/// Every character of `s` is an ASCII digit.
pub open spec fn all_digits(s: Seq<char>) -> bool {
    forall|i: int| 0 <= i < s.len() ==> is_digit(#[trigger] s[i])
}

/// The number that the decimal digits `s` stand for.
pub open spec fn digits_value(s: Seq<char>) -> nat
    decreases s.len(),
{
    if s.len() == 0 {
        0
    } else {
        (digits_value(s.drop_last()) * 10 + (s.last() as u32 - '0' as u32)) as nat
    }
}

/// The port that a text stands for: an optional `+`, then one or more
/// decimal digits whose value is at most 65535.
pub open spec fn parsed_port(s: Seq<char>) -> Option<u16> {
    let digits = if s.len() > 0 && s[0] == '+' {
        s.skip(1)
    } else {
        s
    };
    if digits.len() > 0 && all_digits(digits) && digits_value(digits) <= u16::MAX {
        Some(digits_value(digits) as u16)
    } else {
        None
    }
}

/// The address of a service: `http://`, the host, a colon and the port in decimal.
pub open spec fn service_url(host: Seq<char>, port: u16) -> Seq<char> {
    "http://"@ + host + ":"@ + decimal(port as nat)
}

/// A longer run of digits stands for a number that is no smaller.
pub proof fn lemma_digits_value_grows(s: Seq<char>, n: int)
    requires
        0 <= n <= s.len(),
        all_digits(s),
    ensures
        digits_value(s.take(n)) <= digits_value(s),
    decreases s.len() - n,
{
    if n < s.len() {
        let t = s.drop_last();
        assert(all_digits(t)) by {
            assert forall|i: int| 0 <= i < t.len() implies is_digit(#[trigger] t[i]) by {
                assert(t[i] == s[i]);
            }
        }
        lemma_digits_value_grows(t, n);
        assert(t.take(n) =~= s.take(n));
        assert(is_digit(s[s.len() - 1]));
    } else {
        assert(s.take(n) =~= s);
    }
}

/// The decimal digits of a number are digits, and they stand for it.
pub proof fn lemma_decimal_value(n: nat)
    ensures
        decimal(n).len() > 0,
        all_digits(decimal(n)),
        digits_value(decimal(n)) == n,
        decimal(n)[0] != '+',
    decreases n,
{
    if n < 10 {
        let s = decimal(n);
        assert(s.drop_last() =~= Seq::<char>::empty());
        assert(digits_value(s.drop_last()) == 0);
    } else {
        lemma_decimal_value(n / 10);
        let s = decimal(n);
        let shorter = decimal(n / 10);
        assert(s.drop_last() =~= shorter);
        assert forall|i: int| 0 <= i < s.len() implies is_digit(#[trigger] s[i]) by {
            if i < shorter.len() {
                assert(s[i] == shorter[i]);
            }
        }
        assert(s[0] == shorter[0]);
    }
}

/// A port written in decimal is read back as itself.
pub proof fn lemma_port_round_trip(port: u16)
    ensures
        parsed_port(decimal(port as nat)) == Some(port),
{
    lemma_decimal_value(port as nat);
}

/// The names of the accepted servers in a comma-separated list.
pub fn get_server_names(raw: &str) -> (names: Vec<String>)
    ensures
        text_views(names@) == server_names_of(raw@),
{
    let chars = to_chars(raw);
    let mut names: Vec<String> = Vec::new();
    let mut start: usize = 0;
    let mut done = false;
    assert(text_views(names@) + names_from(chars@, 0) =~= server_names_of(raw@));
    while !done
        invariant
            chars@ == raw@,
            start <= chars@.len(),
            text_views(names@) + (if done {
                Seq::<Seq<char>>::empty()
            } else {
                names_from(chars@, start as int)
            }) == server_names_of(raw@),
        decreases
                chars@.len() - start + (if done {
                    0int
                } else {
                    1int
                }),
    {
        let end = skip_until(chars.as_slice(), start, ',');
        let field = slice_chars(chars.as_slice(), start, end);
        let name = trim(field.as_slice());
        let ghost before = names@;
        let ghost rest = if end < chars@.len() {
            names_from(chars@, end + 1)
        } else {
            Seq::<Seq<char>>::empty()
        };
        if name.len() > 0 {
            names.push(from_chars(name.as_slice()));
            assert(text_views(names@) =~= text_views(before) + seq![name@]);
            assert(text_views(names@) + rest =~= text_views(before) + (seq![name@] + rest));
        }
        if end < chars.len() {
            start = end + 1;
        } else {
            done = true;
        }
    }
    assert(text_views(names@) + Seq::<Seq<char>>::empty() =~= text_views(names@));
    names
}

/// The port that `text` stands for, if it stands for one.
pub fn parse_port(text: &str) -> (port: Option<u16>)
    ensures
        port == parsed_port(text@),
{
    let chars = to_chars(text);
    let first: usize = if chars.len() > 0 && chars[0] == '+' {
        1
    } else {
        0
    };
    let ghost digits = if first == 1 {
        chars@.skip(1)
    } else {
        chars@
    };
    assert(digits =~= chars@.skip(first as int));
    if chars.len() == first {
        return None;
    }
    let mut value: u32 = 0;
    let mut i: usize = first;
    assert(digits.take(0) =~= Seq::<char>::empty());
    while i < chars.len()
        invariant
            first <= i <= chars@.len(),
            chars@ == text@,
            digits == (if text@.len() > 0 && text@[0] == '+' {
                text@.skip(1)
            } else {
                text@
            }),
            digits == chars@.skip(first as int),
            all_digits(digits.take(i - first)),
            value == digits_value(digits.take(i - first)),
            value <= u16::MAX,
        decreases chars@.len() - i,
    {
        let c = chars[i];
        let ghost shorter = digits.take(i - first);
        let ghost longer = digits.take(i - first + 1);
        assert(longer.drop_last() =~= shorter);
        assert(longer.last() == c);
        if !is_ascii_digit(c) {
            assert(!is_digit(digits[i - first]));
            return None;
        }
        let d: u32 = c as u32 - '0' as u32;
        let next: u32 = value * 10 + d;
        assert(next == digits_value(longer));
        assert(all_digits(longer)) by {
            assert forall|j: int| 0 <= j < longer.len() implies is_digit(#[trigger] longer[j]) by {
                if j < shorter.len() {
                    assert(longer[j] == shorter[j]);
                }
            }
        }
        if next > 65535 {
            proof {
                if all_digits(digits) {
                    lemma_digits_value_grows(digits, i - first + 1);
                }
            }
            return None;
        }
        value = next;
        i = i + 1;
    }
    assert(digits.take(digits.len() as int) =~= digits);
    Some(value as u16)
}

/// The port to listen on: 8080 unless the environment names another.
pub fn get_port(value: Option<&str>) -> (port: u16)
    requires
        value matches Some(text) ==> parsed_port(text@) is Some,
    ensures
        port == match value {
            Some(text) => parsed_port(text@)->0,
            None => 8080u16,
        },
{
    port_or(value, 8080)
}

/// The port of the quote service: 8081 unless the environment names another.
pub fn get_dstack_service_port(value: Option<&str>) -> (port: u16)
    requires
        value matches Some(text) ==> parsed_port(text@) is Some,
    ensures
        port == match value {
            Some(text) => parsed_port(text@)->0,
            None => 8081u16,
        },
{
    port_or(value, 8081)
}

fn port_or(value: Option<&str>, default: u16) -> (port: u16)
    requires
        value matches Some(text) ==> parsed_port(text@) is Some,
    ensures
        port == match value {
            Some(text) => parsed_port(text@)->0,
            None => default,
        },
{
    match value {
        None => default,
        Some(text) => match parse_port(text) {
            Some(port) => port,
            None => default,
        },
    }
}

fn text_or(value: Option<&str>, default: &str) -> (text: String)
    ensures
        text@ == match value {
            Some(v) => v@,
            None => default@,
        },
{
    match value {
        Some(v) => String::from_str(v),
        None => String::from_str(default),
    }
}

/// The host to listen on: `127.0.0.1` unless the environment names another.
pub fn get_host(value: Option<&str>) -> (host: String)
    ensures
        host@ == match value {
            Some(v) => v@,
            None => "127.0.0.1"@,
        },
{
    text_or(value, "127.0.0.1")
}

/// The host of the quote service: `dstack-service` unless the environment
/// names another.
pub fn get_dstack_service_host(value: Option<&str>) -> (host: String)
    ensures
        host@ == match value {
            Some(v) => v@,
            None => "dstack-service"@,
        },
{
    text_or(value, "dstack-service")
}

/// The accepted version of the presentation format: `0.1.0-alpha.10` unless
/// the environment names another.
pub fn get_tlsn_core_version(value: Option<&str>) -> (version: String)
    ensures
        version@ == match value {
            Some(v) => v@,
            None => "0.1.0-alpha.10"@,
        },
{
    text_or(value, "0.1.0-alpha.10")
}

/// The key that clients must present. It has no default.
pub fn get_api_key(value: Option<&str>) -> (key: String)
    requires
        value is Some,
    ensures
        key@ == value->0@,
{
    text_or(value, "")
}

/// The address of the quote service.
pub fn get_dstack_service_url(host: &str, port: u16) -> (url: String)
    ensures
        url@ == service_url(host@, port),
{
    let mut url = String::from_str("http://");
    url.append(host);
    url.append(":");
    push_decimal(&mut url, port as u64);
    url
}

} // verus!
