//! Header names and values as the `http` crate accepts them, and the
//! case-insensitive, first-match lookup of a request header.

use std::str::FromStr;
use vstd::prelude::*;

verus! {

/// A character that `http` accepts in a header name: ASCII letters and
/// digits and ``!"#$%&'*+-.^_`|~``.
pub open spec fn is_name_char(c: char) -> bool {
    let v = c as u32;
    (33 <= v && v <= 39) || v == 42 || v == 43 || v == 45 || v == 46 || (48 <= v && v <= 57) || (
    65 <= v && v <= 90) || (94 <= v && v <= 122) || v == 124 || v == 126
}

/// `s` is a valid header name: 1 to 65535 characters, each a name character
/// (all of them ASCII, so that characters and bytes count alike).
pub open spec fn is_valid_header_name(s: Seq<char>) -> bool {
    &&& 1 <= s.len() <= 65535
    &&& forall|i: int| 0 <= i < s.len() ==> is_name_char(#[trigger] s[i])
}

/// Relies on `http::HeaderName::from_str`, which accepts a name exactly when
/// it is 1 to 65535 bytes long and every byte maps to a non-zero entry of
/// http's name table (the characters of `is_name_char`).
#[verifier::external_body]
pub(crate) fn header_name_accepted(s: &str) -> (r: bool)
    ensures
        r == is_valid_header_name(s@),
{
    http::HeaderName::from_str(s).is_ok()
}

/// A character whose UTF-8 bytes may all stand in a header value: a tab, or
/// any byte from 0x20 up but DEL (every byte of a multi-byte character is at
/// least 0x80).
pub open spec fn is_value_char(c: char) -> bool {
    c == '\t' || (c as u32 >= 32 && c as u32 != 127)
}

/// `s` is a syntactically valid header value.
pub open spec fn is_valid_header_value(s: Seq<char>) -> bool {
    forall|i: int| 0 <= i < s.len() ==> is_value_char(#[trigger] s[i])
}

/// Relies on `http::HeaderValue::from_str`, which accepts a string exactly
/// when each of its bytes is a tab or is at least 0x20 and not 0x7f (so bytes
/// from 0x80 up are accepted).
#[verifier::external_body]
pub(crate) fn header_value_accepted(s: &str) -> (r: bool)
    ensures
        r == is_valid_header_value(s@),
{
    http::HeaderValue::from_str(s).is_ok()
}

/// The code of `c` with ASCII upper-case letters folded to lower case.
pub open spec fn fold_ascii(c: char) -> u32 {
    if 65 <= c as u32 && c as u32 <= 90 {
        (c as u32 + 32) as u32
    } else {
        c as u32
    }
}

/// `a` and `b` are equal up to ASCII case.
pub open spec fn eq_ignore_ascii_case(a: Seq<char>, b: Seq<char>) -> bool {
    &&& a.len() == b.len()
    &&& forall|i: int| 0 <= i < a.len() ==> fold_ascii(#[trigger] a[i]) == fold_ascii(b[i])
}

/// The value of the first header, at index `i` or after, whose name equals
/// `name` up to ASCII case.
pub open spec fn lookup_from(headers: Seq<(String, String)>, name: Seq<char>, i: int) -> Option<
    Seq<char>,
>
    decreases headers.len() - i,
{
    if i < 0 || i >= headers.len() {
        None
    } else if eq_ignore_ascii_case(headers[i].0@, name) {
        Some(headers[i].1@)
    } else {
        lookup_from(headers, name, i + 1)
    }
}

/// The value of the first header whose name equals `name` up to ASCII case.
pub open spec fn header_lookup(headers: Seq<(String, String)>, name: Seq<char>) -> Option<
    Seq<char>,
> {
    lookup_from(headers, name, 0)
}

fn fold_ascii_exec(c: char) -> (r: u32)
    ensures
        r == fold_ascii(c),
{
    let v = c as u32;
    if 65 <= v && v <= 90 {
        v + 32
    } else {
        v
    }
}

/// Compares two strings up to ASCII case.
pub fn equals_ignore_ascii_case(a: &str, b: &str) -> (r: bool)
    ensures
        r == eq_ignore_ascii_case(a@, b@),
{
    let n = a.unicode_len();
    if n != b.unicode_len() {
        return false;
    }
    let mut i: usize = 0;
    while i < n
        invariant
            n == a@.len(),
            n == b@.len(),
            i <= n,
            forall|j: int| 0 <= j < i ==> fold_ascii(#[trigger] a@[j]) == fold_ascii(b@[j]),
        decreases n - i,
    {
        if fold_ascii_exec(a.get_char(i)) != fold_ascii_exec(b.get_char(i)) {
            return false;
        }
        i = i + 1;
    }
    true
}

/// The value of the first request header named `name`, ignoring ASCII case.
pub fn find_header<'a>(headers: &'a Vec<(String, String)>, name: &str) -> (r: Option<&'a String>)
    ensures
        match r {
            Some(v) => header_lookup(headers@, name@) == Some(v@),
            None => header_lookup(headers@, name@) is None,
        },
{
    let mut i: usize = 0;
    while i < headers.len()
        invariant
            i <= headers@.len(),
            lookup_from(headers@, name@, 0) == lookup_from(headers@, name@, i as int),
        decreases headers@.len() - i,
    {
        if equals_ignore_ascii_case(headers[i].0.as_str(), name) {
            return Some(&headers[i].1);
        }
        i = i + 1;
    }
    None
}

} // verus!
