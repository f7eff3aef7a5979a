//! The JSON documents that frames are made of.
//!
//! Reading and writing JSON text is the work of `serde_json`. This module
//! declares the types it hands out and states, without proof, what the few of
//! its functions that the protocol calls are taken to do. The protocol reads
//! one thing from a document, the members of its top-level object whose value
//! is a string, and writes objects whose members are strings or `null`.

use vstd::prelude::*;

verus! {

/// A parsed JSON document, as `serde_json` holds it.
#[verifier::external_type_specification]
#[verifier::external_body]
pub struct ExJsonValue(serde_json::Value);

/// The reason `serde_json` gives for rejecting a text.
#[verifier::external_type_specification]
#[verifier::external_body]
pub struct ExJsonError(serde_json::Error);

/// The key-value table behind a JSON object.
#[verifier::external_type_specification]
#[verifier::external_body]
#[verifier::reject_recursive_types(K)]
#[verifier::reject_recursive_types(V)]
pub struct ExJsonObject<K, V>(serde_json::Map<K, V>);

/// The string members of a document: for a document that is an object, each
/// key whose value is a JSON string, with that string; for any other
/// document, nothing.
pub uninterp spec fn text_members(doc: serde_json::Value) -> Map<Seq<char>, Seq<char>>;

/// What `serde_json::from_str` makes of a text: `None` where it rejects the
/// text, else the string members of the document it returns.
pub uninterp spec fn parsed_members(text: Seq<char>) -> Option<Map<Seq<char>, Seq<char>>>;

/// The members of an object under construction, `None` standing for `null`.
pub uninterp spec fn object_members(object: serde_json::Map<String, serde_json::Value>) -> Map<
    Seq<char>,
    Option<Seq<char>>,
>;

/// The compact JSON text of an object with the given members.
pub uninterp spec fn object_text(members: Map<Seq<char>, Option<Seq<char>>>) -> Seq<char>;

/// An object without members.
pub open spec fn no_members() -> Map<Seq<char>, Option<Seq<char>>> {
    Map::empty()
}

/// The view of an optional string slice.
pub open spec fn optional_text(value: Option<&str>) -> Option<Seq<char>> {
    match value {
        Some(text) => Some(text@),
        None => None,
    }
}

/// Calls `serde_json::from_str` for a `Value`. Taken on trust: the outcome
/// depends on the text alone, and a text that is accepted yields a document
/// with the string members that `parsed_members` names.
#[verifier::external_body]
pub(crate) fn parse(text: &str) -> (outcome: Result<serde_json::Value, serde_json::Error>)
    ensures
        match outcome {
            Ok(doc) => parsed_members(text@) == Some(text_members(doc)),
            Err(_) => parsed_members(text@).is_none(),
        },
{
    serde_json::from_str::<serde_json::Value>(text)
}

/// Calls `serde_json::Value::get` with a string key and keeps the result
/// where it is a JSON string. Taken on trust: the lookup finds exactly the
/// string members of an object, and nothing in a document of another kind.
#[verifier::external_body]
pub(crate) fn text_member(doc: &serde_json::Value, key: &str) -> (found: Option<String>)
    ensures
        match found {
            Some(text) => text_members(*doc).contains_key(key@) && text_members(*doc)[key@]
                == text@,
            None => !text_members(*doc).contains_key(key@),
        },
{
    match doc.get(key) {
        Some(serde_json::Value::String(text)) => Some(text.clone()),
        _ => None,
    }
}

/// Calls `serde_json::Map::new`. Taken on trust: the new object has no
/// members.
#[verifier::external_body]
pub(crate) fn object_new() -> (object: serde_json::Map<String, serde_json::Value>)
    ensures
        object_members(object) == no_members(),
{
    serde_json::Map::new()
}

/// Calls `serde_json::Map::insert` with a string value or `null`. Taken on
/// trust: the member is added, and replaces an earlier member of that key.
#[verifier::external_body]
pub(crate) fn object_put(
    object: &mut serde_json::Map<String, serde_json::Value>,
    key: &str,
    value: Option<&str>,
)
    ensures
        object_members(*final(object)) == object_members(*old(object)).insert(
            key@,
            optional_text(value),
        ),
{
    let member = match value {
        Some(text) => serde_json::Value::String(text.to_owned()),
        None => serde_json::Value::Null,
    };
    object.insert(key.to_owned(), member);
}

/// Formats an object with the `Display` impl of `serde_json::Value`, which
/// writes compact JSON. Taken on trust: the text depends on the members
/// alone, whatever the order in which they were put. This holds because the
/// object keeps its members sorted by key, as `serde_json` does unless its
/// feature `preserve_order` is switched on.
#[verifier::external_body]
pub(crate) fn object_render(object: serde_json::Map<String, serde_json::Value>) -> (text: String)
    ensures
        text@ == object_text(object_members(object)),
{
    serde_json::Value::Object(object).to_string()
}

} // verus!
