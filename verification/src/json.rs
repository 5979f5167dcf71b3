//! Reading and writing the small JSON documents the launcher exchanges with
//! its own state file and with the tools it queries.

use vstd::prelude::*;

use crate::text::opt_text;

verus! {

/// The text of the string member `key` of the JSON object that `text` holds:
/// `None` where `text` is no JSON document, the document is no object, the
/// object has no such member, or the member is no string.
pub uninterp spec fn json_text_member(text: Seq<char>, key: Seq<char>) -> Option<Seq<char>>;

/// The first element of the JSON array that `text` holds, written out as a
/// JSON document of its own: `None` where `text` is no JSON array or the
/// array is empty.
pub uninterp spec fn json_first_element(text: Seq<char>) -> Option<Seq<char>>;

/// The JSON object with the given string members, pretty-printed.
pub uninterp spec fn json_object_text(members: Seq<(Seq<char>, Seq<char>)>) -> Option<Seq<char>>;

/// The members as pairs of views.
pub open spec fn member_views(members: Seq<(String, String)>) -> Seq<(Seq<char>, Seq<char>)> {
    Seq::new(members.len(), |i: int| (members[i].0@, members[i].1@))
}

/// Parses `text` with `serde_json::from_str` into a `serde_json::Value`, looks
/// `key` up with `Value::get` and reads the member with `Value::as_str`; the
/// result is named by `json_text_member`.
#[verifier::external_body]
pub(crate) fn read_text_member(text: &str, key: &str) -> (res: Option<String>)
    ensures
        opt_text(res) == json_text_member(text@, key@),
{
    let value: serde_json::Value = serde_json::from_str(text).ok()?;
    value.get(key)?.as_str().map(|s| s.to_string())
}

/// Parses `text` with `serde_json::from_str` into a list of
/// `serde_json::Value` and writes the first one back out with its `Display`
/// impl; the result is named by `json_first_element`.
#[verifier::external_body]
pub(crate) fn read_first_element(text: &str) -> (res: Option<String>)
    ensures
        opt_text(res) == json_first_element(text@),
{
    let list: Vec<serde_json::Value> = serde_json::from_str(text).ok()?;
    list.first().map(|v| v.to_string())
}

/// Fills a `serde_json::Map` with the members as JSON strings and prints the
/// object with `serde_json::to_string_pretty`; the result is named by
/// `json_object_text`, and is `None` where the serializer reports an error.
#[verifier::external_body]
pub(crate) fn write_text_object(members: &Vec<(String, String)>) -> (res: Option<String>)
    ensures
        opt_text(res) == json_object_text(member_views(members@)),
{
    let mut object = serde_json::Map::new();
    for (key, value) in members.iter() {
        object.insert(key.clone(), serde_json::Value::String(value.clone()));
    }
    serde_json::to_string_pretty(&serde_json::Value::Object(object)).ok()
}

} // verus!
