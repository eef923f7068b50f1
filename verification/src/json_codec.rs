//! Encoding of string lists as JSON text, the form the store keeps a
//! product's image list in.

use vstd::prelude::*;

verus! {

/// The JSON text `serde_json` writes for a list of strings.
pub uninterp spec fn spec_json_list(items: Seq<Seq<char>>) -> Seq<char>;

/// The list of strings `serde_json` reads from a JSON text, an empty list
/// when the text does not parse as one.
pub uninterp spec fn spec_parsed_json_list(text: Seq<char>) -> Seq<Seq<char>>;

/// Relies on `serde_json::to_string`: the JSON text is a function of the
/// list alone, and `serde_json::from_str` reads the same list back from it.
/// Serializing a vector of strings cannot fail, so the fallback arm is
/// never taken.
#[verifier::external_body]
pub fn to_json_array(arr: &[String]) -> (r: String)
    ensures
        r@ == spec_json_list(arr.deep_view()),
        spec_parsed_json_list(r@) == arr.deep_view(),
{
    serde_json::to_string(arr).unwrap_or_else(|_| "[]".to_string())
}

/// Relies on `serde_json::from_str`: the list read is a function of the
/// JSON text alone; text that does not parse as a list of strings yields
/// the empty list.
#[verifier::external_body]
pub fn parse_json_array(json: &str) -> (r: Vec<String>)
    ensures
        r.deep_view() == spec_parsed_json_list(json@),
{
    serde_json::from_str(json).unwrap_or_default()
}

/// Encoding a list as JSON and parsing it back returns the same list.
pub fn json_list_round_trip(arr: &[String]) -> (r: Vec<String>)
    ensures
        r.deep_view() == arr.deep_view(),
{
    let text = to_json_array(arr);
    parse_json_array(text.as_str())
}

} // verus!
