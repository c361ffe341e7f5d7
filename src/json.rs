//! JSON encoding and decoding, done by serde_json.
use vstd::prelude::*;

verus! {

#[verifier::external_type_specification]
#[verifier::external_body]
pub struct ExJsonError(serde_json::Error);

/// The JSON string literal that serde_json writes for a text: quoted and escaped.
pub uninterp spec fn json_quoted(s: Seq<char>) -> Seq<char>;

/// What serde_json reads from bytes as a JSON array of strings, or `None` when the
/// bytes are not one.
pub uninterp spec fn json_string_list(b: Seq<u8>) -> Option<Seq<Seq<char>>>;

/// Relies on serde_json::to_string for a `str`: the text as a JSON string literal.
/// It serializes into a `Vec<u8>`, whose writes never fail, so the result is `Ok`.
#[verifier::external_body]
pub(crate) fn quote(s: &str) -> (r: Result<String, serde_json::Error>)
    ensures
        match r {
            Ok(q) => q@ == json_quoted(s@),
            Err(_) => false,
        },
{
    serde_json::to_string(s)
}

/// Relies on serde_json::from_slice into `Vec<String>`: the strings of a JSON array,
/// in the order in which they stand, or an error for any other input.
#[verifier::external_body]
pub(crate) fn parse_string_list(b: &[u8]) -> (r: Option<Vec<String>>)
    ensures
        match r {
            Some(v) => json_string_list(b@) == Some(v@.map_values(|s: String| s@)),
            None => json_string_list(b@) is None,
        },
{
    serde_json::from_slice::<Vec<String>>(b).ok()
}

} // verus!
