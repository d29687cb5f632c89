//! Reading and writing a JSON object whose members are all strings.

use vstd::prelude::*;
use std::collections::BTreeMap;

verus! {

/// A list of pairs of texts, as plain values.
pub open spec fn pairs_view(pairs: Seq<(String, String)>) -> Seq<(Seq<char>, Seq<char>)> {
    Seq::new(pairs.len(), |i: int| (pairs[i].0@, pairs[i].1@))
}

/// What `serde_json::from_str` makes of a text when asked for a map from
/// strings to strings: the members in the order of their keys, or `None`
/// where the text is no such object.
pub uninterp spec fn json_object_members(text: Seq<char>) -> Option<Seq<(Seq<char>, Seq<char>)>>;

/// What `serde_json::to_string` writes for the map that holds the given
/// members, a later one replacing an earlier one of the same key.
pub uninterp spec fn json_object_text(members: Seq<(Seq<char>, Seq<char>)>) -> Seq<char>;

/// Reads a JSON object whose members are all strings.
///
/// Trusted: calls `serde_json::from_str` for a `BTreeMap<String, String>`
/// and lists the map's entries. The result depends on the text alone; the
/// contract gives it its name and says no more of it.
#[verifier::external_body]
pub(crate) fn read_object(text: &str) -> (r: Option<Vec<(String, String)>>)
    ensures
        match r {
            Some(members) => json_object_members(text@) == Some(pairs_view(members@)),
            None => json_object_members(text@) is None,
        },
{
    match serde_json::from_str::<BTreeMap<String, String>>(text) {
        Ok(map) => Some(map.into_iter().collect()),
        Err(_) => None,
    }
}

/// Writes a JSON object whose members are all strings.
///
/// Trusted: collects the members into a `BTreeMap<String, String>` and
/// calls `serde_json::to_string` on it, which does not fail for such a map.
/// The result depends on the members alone; the contract gives it its name
/// and says no more of it.
#[verifier::external_body]
pub(crate) fn write_object(members: &Vec<(String, String)>) -> (r: String)
    ensures
        r@ == json_object_text(pairs_view(members@)),
{
    let map: BTreeMap<String, String> = members.iter().cloned().collect();
    serde_json::to_string(&map).unwrap_or_default()
}

} // verus!
