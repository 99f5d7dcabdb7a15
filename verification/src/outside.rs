//! Declarations of the outside types that the library carries or reads,
//! with the trusted items through which it reads them.

use vstd::prelude::*;

verus! {

/// `http::HeaderMap`: a multimap from header names to values.
#[verifier::external_type_specification]
#[verifier::external_body]
#[verifier::reject_recursive_types(T)]
pub struct ExHeaderMap<T>(http::HeaderMap<T>);

/// `http::HeaderValue`: the bytes of one header value.
#[verifier::external_type_specification]
#[verifier::external_body]
pub struct ExHeaderValue(http::HeaderValue);

/// `tokio::time::Instant`: a point in monotonic time, carried unread.
#[verifier::external_type_specification]
#[verifier::external_body]
pub struct ExInstant(tokio::time::Instant);

/// `serde_json::Value`: a JSON document, carried unread.
#[verifier::external_type_specification]
#[verifier::external_body]
pub struct ExJsonValue(serde_json::Value);

/// What a header map holds: for each header name (lowercase, as
/// `HeaderName::as_str` gives it) the bytes of its values, first inserted
/// first.
pub uninterp spec fn header_values(headers: http::HeaderMap<http::HeaderValue>) -> Map<Seq<char>, Seq<Seq<u8>>>;

/// A header name written as `HeaderMap` stores it: one or more characters,
/// each a lowercase ASCII letter, an ASCII digit or `-`.
pub open spec fn is_lowercase_header_name(name: Seq<char>) -> bool {
    &&& name.len() > 0
    &&& forall|i: int|
        0 <= i < name.len() ==> {
            let c = #[trigger] name[i];
            ('a' <= c && c <= 'z') || ('0' <= c && c <= '9') || c == '-'
        }
}

/// The first value stored under `name`, if any.
pub open spec fn first_header_value(
    headers: http::HeaderMap<http::HeaderValue>,
    name: Seq<char>,
) -> Option<Seq<u8>> {
    let values = header_values(headers);
    if values.contains_key(name) && values[name].len() > 0 {
        Some(values[name][0])
    } else {
        None
    }
}

/// `HeaderMap::get` with a lowercase header name, handing out the bytes of
/// the value found (`HeaderValue::as_bytes`). The map's documentation: "If
/// there are multiple values associated with the key, then the first one is
/// returned ... Returns `None` if there are no values associated with the
/// key."
#[verifier::external_body]
pub(crate) fn get_header_bytes(headers: &http::HeaderMap<http::HeaderValue>, name: &str) -> (res:
    Option<Vec<u8>>)
    requires
        is_lowercase_header_name(name@),
    ensures
        match res {
            Some(bytes) => header_values(*headers).contains_key(name@)
                && header_values(*headers)[name@].len() > 0
                && bytes@ == header_values(*headers)[name@][0],
            None => !header_values(*headers).contains_key(name@)
                || header_values(*headers)[name@].len() == 0,
        },
{
    headers.get(name).map(|value| value.as_bytes().to_vec())
}

} // verus!
