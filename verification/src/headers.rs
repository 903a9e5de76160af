//! The HTTP headers that the adapters set and read.

use actix_web::http::header::HeaderMap;
use vstd::prelude::*;

verus! {

pub const AUTHORIZATION: &'static str = "Authorization";

pub const CONTENT_TYPE: &'static str = "Content-Type";

/// Routing-trace header.
pub const X_ROUTER: &'static str = "X-Router";

/// The headers of an inbound HTTP request, as `actix-web` holds them.
#[verifier::external_type_specification]
#[verifier::external_body]
pub struct ExHeaderMap(HeaderMap);

/// For each header name, in every spelling under which the map finds it, the
/// bytes of the first value that the map holds for it.
pub uninterp spec fn first_values(headers: HeaderMap) -> Map<Seq<char>, Seq<u8>>;

/// Calls `HeaderMap::get` and copies the bytes of the value found. The
/// contract claims that what is found depends on the map and the name alone:
/// `get` returns the first value stored under a name, and `None` for a name
/// that the map does not hold or that is no header name.
#[verifier::external_body]
pub(crate) fn get_first(headers: &HeaderMap, name: &str) -> (r: Option<Vec<u8>>)
    ensures
        match r {
            Some(value) => first_values(*headers).contains_key(name@) && first_values(
                *headers,
            )[name@] == value@,
            None => !first_values(*headers).contains_key(name@),
        },
{
    match headers.get(name) {
        Some(value) => Some(value.as_bytes().to_vec()),
        None => None,
    }
}

/// The value of the header called `name`, where the request has one.
pub open spec fn header_value(headers: HeaderMap, name: Seq<char>) -> Option<Seq<u8>> {
    if first_values(headers).contains_key(name) {
        Some(first_values(headers)[name])
    } else {
        None
    }
}

} // verus!
