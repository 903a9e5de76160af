//! The `application/x-www-form-urlencoded` format.

use crate::utils::text::pairs_view;
use vstd::prelude::*;

verus! {

/// Why `serde_urlencoded` could not write a value. The library reads none of
/// it.
#[verifier::external_type_specification]
#[verifier::external_body]
pub struct ExSerError(serde_urlencoded::ser::Error);

/// Why `serde_urlencoded` could not read a text. The library reads none of
/// it.
#[verifier::external_type_specification]
#[verifier::external_body]
pub struct ExDeError(serde_urlencoded::de::Error);

/// The form-encoded text of a list of pairs of a name and a value.
pub uninterp spec fn form_encoded(pairs: Seq<(Seq<char>, Seq<char>)>) -> Seq<char>;

/// The pairs that a form-encoded text stands for, or `None` for a text that
/// `serde_urlencoded` does not read as a list of pairs.
pub uninterp spec fn form_decoded(text: Seq<char>) -> Option<Seq<(Seq<char>, Seq<char>)>>;

/// Calls `serde_urlencoded::to_string` on a list of pairs of strings. The
/// contract claims that the call succeeds, that the text written depends on
/// the pairs alone, and names it [`form_encoded`]. The call succeeds because
/// no step of the serializer fails on such a list: it takes a sequence at the
/// top, a tuple of two as a pair, and a string as a name and as a value.
#[verifier::external_body]
fn to_string(pairs: &Vec<(String, String)>) -> (r: Result<String, serde_urlencoded::ser::Error>)
    ensures
        r is Ok,
        r matches Ok(text) ==> text@ == form_encoded(pairs_view(pairs@)),
{
    serde_urlencoded::to_string(pairs)
}

/// Calls `serde_urlencoded::from_str` for a list of pairs of strings. The
/// contract claims that the outcome depends on the text alone, and names it
/// [`form_decoded`]: `None` where `serde_urlencoded` reports an error.
#[verifier::external_body]
fn from_str(text: &str) -> (r: Result<Vec<(String, String)>, serde_urlencoded::de::Error>)
    ensures
        match r {
            Ok(pairs) => form_decoded(text@) == Some(pairs_view(pairs@)),
            Err(_) => form_decoded(text@) is None,
        },
{
    serde_urlencoded::from_str::<Vec<(String, String)>>(text)
}

/// Writes pairs as form-encoded text.
pub fn encode(pairs: &Vec<(String, String)>) -> (r: String)
    ensures
        r@ == form_encoded(pairs_view(pairs@)),
{
    match to_string(pairs) {
        Ok(text) => text,
        Err(_) => unreached(),
    }
}

/// Reads form-encoded text into pairs.
pub fn decode(text: &str) -> (r: Option<Vec<(String, String)>>)
    ensures
        match r {
            Some(pairs) => form_decoded(text@) == Some(pairs_view(pairs@)),
            None => form_decoded(text@) is None,
        },
{
    match from_str(text) {
        Ok(pairs) => Some(pairs),
        Err(_) => None,
    }
}

} // verus!
