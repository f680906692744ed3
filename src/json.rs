//! The JSON text that the envelope is written in, read and written by serde_json.
use std::collections::BTreeMap;
use vstd::prelude::*;

verus! {

/// The members of a JSON text that is one object whose members are all
/// strings, in the order of their keys, each key once (a key written twice
/// keeps its last value); `None` for any other text.
pub uninterp spec fn json_string_members(text: Seq<char>) -> Option<Seq<(Seq<char>, Seq<char>)>>;

/// The JSON string literal, quotes and escapes included, that stands for a text.
pub uninterp spec fn json_string_literal(s: Seq<char>) -> Seq<char>;

/// The views of a list of string pairs.
pub open spec fn pair_views(v: Seq<(String, String)>) -> Seq<(Seq<char>, Seq<char>)> {
    v.map_values(|p: (String, String)| (p.0@, p.1@))
}

/// Relies on `serde_json::from_str` into a `BTreeMap<String, String>`: it
/// accepts exactly a JSON object whose members are all strings, and a later
/// member replaces an earlier one with the same key. The map is handed on as
/// its list of entries.
#[verifier::external_body]
pub(crate) fn parse_string_members(text: &str) -> (r: Option<Vec<(String, String)>>)
    ensures
        r is Some <==> json_string_members(text@) is Some,
        r matches Some(v) ==> json_string_members(text@) == Some(pair_views(v@)),
{
    match serde_json::from_str::<BTreeMap<String, String>>(text) {
        Ok(m) => Some(m.into_iter().collect()),
        Err(_) => None,
    }
}

/// Relies on `serde_json::to_string` on a `str`: the JSON string literal of
/// the text. Writing a string into memory cannot fail there.
#[verifier::external_body]
pub(crate) fn quote_json_string(s: &str) -> (r: String)
    ensures
        r@ == json_string_literal(s@),
{
    serde_json::to_string(s).expect("a string always serializes")
}

} // verus!
