//! Trusted boundary to the JSON decoder.
//!
//! The structured sub-fields of the flat request shape are JSON-encoded
//! strings; validity of JSON text and the meaning of a JSON-encoded string
//! list are the decoder's judgement, so both are named here rather than
//! restated, and the rest of the crate reasons over the names.

use vstd::prelude::*;

verus! {

/// The string list that a piece of text encodes as a JSON array of strings,
/// or `None` where the text does not encode one.
pub uninterp spec fn str_list_of(s: Seq<char>) -> Option<Seq<Seq<char>>>;

/// Whether a piece of text is a valid JSON value.
pub uninterp spec fn is_valid_json(s: Seq<char>) -> bool;

/// Relies on `serde_json::from_str::<Vec<String>>`: decodes a JSON array of
/// strings from text, failing on any other input; the result depends on the
/// text alone.
#[verifier::external_body]
pub(crate) fn parse_string_list(s: &String) -> (r: Option<Vec<String>>)
    ensures
        r is Some <==> str_list_of(s@) is Some,
        r matches Some(v) ==> str_list_of(s@) == Some(v.deep_view()),
{
    match serde_json::from_str::<Vec<String>>(s) {
        Ok(v) => Some(v),
        Err(_) => None,
    }
}

/// Relies on `serde_json::from_str::<serde_json::Value>`: succeeds exactly on
/// valid JSON text; success depends on the text alone.
#[verifier::external_body]
pub(crate) fn json_value_parses(s: &String) -> (r: bool)
    ensures
        r == is_valid_json(s@),
{
    match serde_json::from_str::<serde_json::Value>(s) {
        Ok(_) => true,
        Err(_) => false,
    }
}

} // verus!
