use vstd::prelude::*;

use reqwest::header::HeaderMap;

use crate::error::ApifyApiError;
use crate::headers::{
    header_bytes, header_fields, header_key, is_plain_header_name, is_plain_header_name_exec,
};

verus! {

/// The result of an operation that answers with no content.
#[derive(Debug, PartialEq)]
pub struct NoOutput;

impl NoOutput {
    pub fn new() -> (r: NoOutput)
        ensures
            r == NoOutput,
    {
        NoOutput
    }
}

/// The `{"data": ...}` envelope of a single-resource answer.
#[derive(Debug)]
pub struct ApifyClientOutput<T> {
    pub data: T,
}

/// One page of a list, with where it stands in the whole list.
#[derive(Debug, PartialEq)]
pub struct PaginationList<T> {
    pub total: u64,
    pub offset: u64,
    pub limit: Option<u64>,
    pub count: u64,
    pub desc: bool,
    pub items: Vec<T>,
}

pub open spec fn is_visible_ascii(b: u8) -> bool {
    (32 <= b && b < 127) || b == 9
}

pub open spec fn is_digit(b: u8) -> bool {
    48 <= b <= 57
}

/// The number the decimal digits `s` spell.
pub open spec fn digits_value(s: Seq<u8>) -> nat
    decreases s.len(),
{
    if s.len() == 0 {
        0
    } else {
        digits_value(s.drop_last()) * 10 + (s.last() - 48) as nat
    }
}

/// The digits of an unsigned decimal, after an optional `+`.
pub open spec fn unsigned_digits(s: Seq<u8>) -> Seq<u8> {
    if s.len() > 0 && s[0] == 43 {
        s.skip(1)
    } else {
        s
    }
}

/// The value of `s` read as a `u64` the way Rust's `str::parse` reads it: an
/// optional `+`, then at least one digit, with a value that fits.
pub open spec fn parse_u64_spec(s: Seq<u8>) -> Option<u64> {
    let d = unsigned_digits(s);
    if fits_u64_digits(d) {
        Some(digits_value(d) as u64)
    } else {
        None
    }
}

/// At least one digit, nothing else, and a value that fits in a `u64`.
pub open spec fn fits_u64_digits(d: Seq<u8>) -> bool {
    &&& d.len() > 0
    &&& forall|i: int| 0 <= i < d.len() ==> is_digit(#[trigger] d[i])
    &&& digits_value(d) <= u64::MAX
}

pub open spec fn missing_header_message(name: Seq<char>) -> Seq<char> {
    name + " headers missing in response!"@
}

pub open spec fn not_utf8_header_message(name: Seq<char>) -> Seq<char> {
    name + " header is not valid UTF-8!"@
}

pub open spec fn not_number_header_message(name: Seq<char>) -> Seq<char> {
    name + " header cannot be parsed to a u64!"@
}

/// A pagination header read from `fields`: its number, or the text of the
/// failure (absent, not visible ASCII, not a `u64`).
pub open spec fn pagination_header_spec(fields: Map<Seq<u8>, Seq<u8>>, name: Seq<char>) -> Result<
    u64,
    Seq<char>,
> {
    if !fields.contains_key(header_key(name)) {
        Err(missing_header_message(name))
    } else {
        let v = fields[header_key(name)];
        if !(forall|i: int| 0 <= i < v.len() ==> is_visible_ascii(#[trigger] v[i])) {
            Err(not_utf8_header_message(name))
        } else {
            match parse_u64_spec(v) {
                Some(n) => Ok(n),
                None => Err(not_number_header_message(name)),
            }
        }
    }
}

/// `r` is the outcome `spec` describes, with a failure text carried in `ApiFailure`.
pub open spec fn header_outcome_matches(r: Result<u64, ApifyApiError>, spec: Result<u64, Seq<char>>) -> bool {
    match spec {
        Ok(n) => r == Ok::<u64, ApifyApiError>(n),
        Err(text) => r matches Err(ApifyApiError::ApiFailure(m)) && m@ == text,
    }
}

proof fn lemma_digits_prefix_le(s: Seq<u8>, i: int)
    requires
        0 <= i <= s.len(),
        forall|j: int| 0 <= j < s.len() ==> is_digit(#[trigger] s[j]),
    ensures
        digits_value(s.take(i)) <= digits_value(s),
    decreases s.len(),
{
    if i == s.len() {
        assert(s.take(i) =~= s);
    } else {
        let t = s.drop_last();
        assert forall|j: int| 0 <= j < t.len() implies is_digit(#[trigger] t[j]) by {
            assert(t[j] == s[j]);
        }
        lemma_digits_prefix_le(t, i);
        assert(t.take(i) =~= s.take(i));
    }
}

fn all_visible_ascii(v: &Vec<u8>) -> (r: bool)
    ensures
        r == forall|i: int| 0 <= i < v@.len() ==> is_visible_ascii(#[trigger] v@[i]),
{
    let mut i: usize = 0;
    while i < v.len()
        invariant
            i <= v@.len(),
            forall|j: int| 0 <= j < i ==> is_visible_ascii(#[trigger] v@[j]),
        decreases v@.len() - i,
    {
        let b = v[i];
        if !((32 <= b && b < 127) || b == 9) {
            return false;
        }
        i = i + 1;
    }
    true
}

/// Reads a `u64` written in decimal, with an optional leading `+`.
fn parse_u64(v: &Vec<u8>) -> (r: Option<u64>)
    ensures
        r == parse_u64_spec(v@),
{
    let len = v.len();
    let start: usize = if len > 0 && v[0] == 43 {
        1
    } else {
        0
    };
    let ghost d = unsigned_digits(v@);
    assert(d =~= v@.subrange(start as int, len as int));
    if start == len {
        return None;
    }
    let mut acc: u64 = 0;
    let mut i: usize = start;
    while i < len
        invariant
            len == v@.len(),
            start <= i <= len,
            d == unsigned_digits(v@),
            d =~= v@.subrange(start as int, len as int),
            forall|j: int| 0 <= j < i - start ==> is_digit(#[trigger] d[j]),
            acc == digits_value(d.take(i - start)),
        decreases len - i,
    {
        let b = v[i];
        if !(48 <= b && b <= 57) {
            assert(!is_digit(d[i - start]));
            return None;
        }
        let ghost k = (i - start) as int;
        assert(d.take(k + 1).drop_last() =~= d.take(k));
        assert(d.take(k + 1).last() == b);
        let digit = (b - 48) as u64;
        match acc.checked_mul(10) {
            None => {
                proof {
                    lemma_overflow_is_none(d, k + 1);
                }
                return None;
            },
            Some(m) => match m.checked_add(digit) {
                None => {
                    proof {
                        lemma_overflow_is_none(d, k + 1);
                    }
                    return None;
                },
                Some(n) => {
                    acc = n;
                },
            },
        }
        i = i + 1;
    }
    assert(d.take(d.len() as int) =~= d);
    Some(acc)
}

/// Once a prefix of the digits is past `u64::MAX`, the whole number is.
proof fn lemma_overflow_is_none(d: Seq<u8>, k: int)
    requires
        0 < k <= d.len(),
        forall|j: int| 0 <= j < k ==> is_digit(#[trigger] d[j]),
        digits_value(d.take(k)) > u64::MAX,
    ensures
        !fits_u64_digits(d),
{
    if forall|i: int| 0 <= i < d.len() ==> is_digit(#[trigger] d[i]) {
        lemma_digits_prefix_le(d, k);
    }
}

/// Reads a required pagination header as a `u64`. A missing header, one that
/// is not visible ASCII, and one that is not a number each fail with their
/// own `ApiFailure`; none of them falls back to a default. Names are looked
/// up without regard to case; a name other than letters, digits and dashes
/// (at most 64) is never present.
pub fn parse_pagination_header(headers: &HeaderMap, header_name: &str) -> (r: Result<
    u64,
    ApifyApiError,
>)
    ensures
        header_outcome_matches(r, read_header_spec(header_fields(*headers), header_name@)),
{
    let value = if is_plain_header_name_exec(header_name) {
        header_bytes(headers, header_name)
    } else {
        None
    };
    match value {
        None => Err(
            ApifyApiError::ApiFailure(
                String::from_str(header_name).concat(" headers missing in response!"),
            ),
        ),
        Some(bytes) => {
            if !all_visible_ascii(&bytes) {
                Err(
                    ApifyApiError::ApiFailure(
                        String::from_str(header_name).concat(" header is not valid UTF-8!"),
                    ),
                )
            } else {
                match parse_u64(&bytes) {
                    Some(n) => Ok(n),
                    None => Err(
                        ApifyApiError::ApiFailure(
                            String::from_str(header_name).concat(
                                " header cannot be parsed to a u64!",
                            ),
                        ),
                    ),
                }
            }
        },
    }
}

/// A pagination header looked up by `name`; a name that is not plain never matches.
pub open spec fn read_header_spec(fields: Map<Seq<u8>, Seq<u8>>, name: Seq<char>) -> Result<
    u64,
    Seq<char>,
> {
    if is_plain_header_name(name) {
        pagination_header_spec(fields, name)
    } else {
        Err(missing_header_message(name))
    }
}

/// Total, limit and offset of a page, read from its headers in that order;
/// the first failure wins.
pub open spec fn pagination_headers_spec(fields: Map<Seq<u8>, Seq<u8>>) -> Result<
    (u64, u64, u64),
    Seq<char>,
> {
    match read_header_spec(fields, "X-Apify-Pagination-Total"@) {
        Err(m) => Err(m),
        Ok(total) => match read_header_spec(fields, "X-Apify-Pagination-Limit"@) {
            Err(m) => Err(m),
            Ok(limit) => match read_header_spec(fields, "X-Apify-Pagination-Offset"@) {
                Err(m) => Err(m),
                Ok(offset) => Ok((total, limit, offset)),
            },
        },
    }
}

/// Builds a page from the three pagination headers and the items of the
/// body, decoded beforehand. `count` is the number of items, not the server's
/// count (which is wrong when items are skipped); `limit` is always present;
/// `desc` is whether the request asked for descending order.
pub fn decode_pagination<T>(headers: &HeaderMap, items: Vec<T>, desc: bool) -> (r: Result<
    PaginationList<T>,
    ApifyApiError,
>)
    ensures
        match pagination_headers_spec(header_fields(*headers)) {
            Ok((total, limit, offset)) => r matches Ok(p) && p.total == total && p.limit == Some(
                limit,
            ) && p.offset == offset && p.count == items@.len() && p.desc == desc && p.items@
                == items@,
            Err(text) => r matches Err(ApifyApiError::ApiFailure(m)) && m@ == text,
        },
{
    let total = match parse_pagination_header(headers, "X-Apify-Pagination-Total") {
        Ok(n) => n,
        Err(e) => return Err(e),
    };
    let limit = match parse_pagination_header(headers, "X-Apify-Pagination-Limit") {
        Ok(n) => n,
        Err(e) => return Err(e),
    };
    let offset = match parse_pagination_header(headers, "X-Apify-Pagination-Offset") {
        Ok(n) => n,
        Err(e) => return Err(e),
    };
    let count = items.len() as u64;
    Ok(PaginationList { total, offset, limit: Some(limit), count, desc, items })
}

/// A page whose headers lack total, limit or offset is never decoded: it
/// fails with the text that names the missing header.
pub proof fn lemma_missing_pagination_header_fails(fields: Map<Seq<u8>, Seq<u8>>, name: Seq<char>)
    requires
        name == "X-Apify-Pagination-Total"@ || name == "X-Apify-Pagination-Limit"@ || name
            == "X-Apify-Pagination-Offset"@,
        !fields.contains_key(header_key(name)),
    ensures
        pagination_headers_spec(fields) is Err,
        read_header_spec(fields, name) == Err::<u64, Seq<char>>(missing_header_message(name)),
{
}

} // verus!
