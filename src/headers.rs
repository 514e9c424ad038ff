use vstd::prelude::*;

use reqwest::header::{HeaderMap, HeaderValue};

verus! {

/// The header map of an HTTP response, as `reqwest` hands it over.
#[verifier::external_type_specification]
#[verifier::external_body]
#[verifier::reject_recursive_types(T)]
pub struct ExHeaderMap<T>(HeaderMap<T>);

/// One header value, as `reqwest` stores it.
#[verifier::external_type_specification]
#[verifier::external_body]
pub struct ExHeaderValue(HeaderValue);

/// What a header map holds: for each header name, in lower case, the bytes of
/// the first value stored under it.
pub uninterp spec fn header_fields(h: HeaderMap) -> Map<Seq<u8>, Seq<u8>>;

pub open spec fn is_header_name_char(c: char) -> bool {
    ('a' <= c && c <= 'z') || ('A' <= c && c <= 'Z') || ('0' <= c && c <= '9') || c == '-'
}

/// A header name made of letters, digits and dashes, short enough to be
/// looked up without allocation.
pub open spec fn is_plain_header_name(name: Seq<char>) -> bool {
    &&& 0 < name.len() <= 64
    &&& forall|i: int| 0 <= i < name.len() ==> is_header_name_char(#[trigger] name[i])
}

pub open spec fn lower_byte(b: u8) -> u8 {
    if 65 <= b <= 90 {
        (b + 32) as u8
    } else {
        b
    }
}

/// The key a header name is stored under: its ASCII bytes in lower case.
pub open spec fn header_key(name: Seq<char>) -> Seq<u8> {
    Seq::new(name.len(), |i: int| lower_byte(name[i] as u8))
}

/// Relies on `HeaderMap::get` with a `&str` name: the first value stored under
/// the name, compared without regard to ASCII case, or `None`; and on
/// `HeaderValue::as_bytes` for the value's bytes.
#[verifier::external_body]
pub(crate) fn header_bytes(headers: &HeaderMap, name: &str) -> (r: Option<Vec<u8>>)
    requires
        is_plain_header_name(name@),
    ensures
        r is Some <==> header_fields(*headers).contains_key(header_key(name@)),
        r is Some ==> r->0@ == header_fields(*headers)[header_key(name@)],
{
    headers.get(name).map(|v| v.as_bytes().to_vec())
}

pub(crate) fn is_plain_header_name_exec(name: &str) -> (r: bool)
    ensures
        r == is_plain_header_name(name@),
{
    let len = name.unicode_len();
    if len == 0 || len > 64 {
        return false;
    }
    let mut i: usize = 0;
    while i < len
        invariant
            len == name@.len(),
            i <= len,
            forall|j: int| 0 <= j < i ==> is_header_name_char(#[trigger] name@[j]),
        decreases len - i,
    {
        let c = name.get_char(i);
        if !(('a' <= c && c <= 'z') || ('A' <= c && c <= 'Z') || ('0' <= c && c <= '9') || c
            == '-') {
            return false;
        }
        i = i + 1;
    }
    true
}

} // verus!
