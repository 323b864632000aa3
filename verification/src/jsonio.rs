//! JSON text for stored fields, through serde_json.
//!
//! The repository stores a task's argument vector and its trigger payload as
//! JSON text, produced and parsed by serde_json. What exact text serde_json
//! produces is not restated here; each result is named, and the one fact the
//! store needs — parsing the produced text yields the value back — is taken
//! from serde_json's documented round-trip behaviour.

use vstd::prelude::*;

verus! {

/// The JSON text serde_json produces for a vector of strings.
pub uninterp spec fn json_strings_of(v: Seq<Seq<char>>) -> Seq<char>;

/// The vector of strings serde_json parses from a piece of text, if any.
pub uninterp spec fn json_parsed_strings_of(s: Seq<char>) -> Option<Seq<Seq<char>>>;

/// The JSON text serde_json produces for a `u64`.
pub uninterp spec fn json_u64_of(n: u64) -> Seq<char>;

/// The `u64` serde_json parses from a piece of text, if any.
pub uninterp spec fn json_parsed_u64_of(s: Seq<char>) -> Option<u64>;

/// The JSON text serde_json produces for an `i64`.
pub uninterp spec fn json_i64_of(n: i64) -> Seq<char>;

/// The `i64` serde_json parses from a piece of text, if any.
pub uninterp spec fn json_parsed_i64_of(s: Seq<char>) -> Option<i64>;

/// Relies on `serde_json::to_string::<Vec<String>>`. Serializing a vector
/// of strings cannot fail, and parsing the produced text yields the same
/// vector back.
#[verifier::external_body]
pub(crate) fn strings_to_json(v: &Vec<String>) -> (r: String)
    ensures
        r@ == json_strings_of(v.deep_view()),
        json_parsed_strings_of(r@) == Some(v.deep_view()),
{
    serde_json::to_string(v).unwrap_or_default()
}

/// Relies on `serde_json::from_str::<Vec<String>>`; a parse error becomes
/// `None`.
#[verifier::external_body]
pub(crate) fn strings_from_json(s: &str) -> (r: Option<Vec<String>>)
    ensures
        r.deep_view() == json_parsed_strings_of(s@),
{
    serde_json::from_str(s).ok()
}

/// Relies on `serde_json::to_string::<u64>`. Serializing an integer cannot
/// fail, and parsing the produced text yields the same integer back.
#[verifier::external_body]
pub(crate) fn u64_to_json(n: u64) -> (r: String)
    ensures
        r@ == json_u64_of(n),
        json_parsed_u64_of(r@) == Some(n),
{
    serde_json::to_string(&n).unwrap_or_default()
}

/// Relies on `serde_json::from_str::<u64>`; a parse error becomes `None`.
#[verifier::external_body]
pub(crate) fn u64_from_json(s: &str) -> (r: Option<u64>)
    ensures
        r == json_parsed_u64_of(s@),
{
    serde_json::from_str(s).ok()
}

/// Relies on `serde_json::to_string::<i64>`. Serializing an integer cannot
/// fail, and parsing the produced text yields the same integer back.
#[verifier::external_body]
pub(crate) fn i64_to_json(n: i64) -> (r: String)
    ensures
        r@ == json_i64_of(n),
        json_parsed_i64_of(r@) == Some(n),
{
    serde_json::to_string(&n).unwrap_or_default()
}

/// Relies on `serde_json::from_str::<i64>`; a parse error becomes `None`.
#[verifier::external_body]
pub(crate) fn i64_from_json(s: &str) -> (r: Option<i64>)
    ensures
        r == json_parsed_i64_of(s@),
{
    serde_json::from_str(s).ok()
}

} // verus!
