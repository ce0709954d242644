//! JSON documents, read and written by `serde_json`.
//!
//! A document is held as a `serde_json::Value`. What it holds is modelled by
//! `JsonTree`; the functions that read a document say over that model what
//! they return.

use serde_json::Value;
use vstd::prelude::*;

verus! {

/// What a JSON document holds. A number's value is left out of the model.
pub enum JsonTree {
    Null,
    Bool(bool),
    Number,
    Text(Seq<char>),
    Array(Seq<JsonTree>),
    Object(Map<Seq<char>, JsonTree>),
}

#[verifier::external_type_specification]
#[verifier::external_body]
pub struct ExValue(serde_json::Value);

#[verifier::external_type_specification]
#[verifier::external_body]
pub struct ExJsonError(serde_json::Error);

/// What the document `v` holds.
pub uninterp spec fn json_tree(v: Value) -> JsonTree;

/// What `serde_json` reads from `text`: the document's content, or `None`
/// where the text is not one JSON document.
pub uninterp spec fn parsed_json(text: Seq<char>) -> Option<JsonTree>;

/// The JSON string literal that `serde_json` writes for `s`: the text in
/// double quotes, with the characters escaped that JSON wants escaped.
pub uninterp spec fn json_string(s: Seq<char>) -> Seq<char>;

/// Reads a text as one JSON document with `serde_json::from_str`. The result
/// is a function of the text alone, named `parsed_json`.
#[verifier::external_body]
pub(crate) fn parse(text: &str) -> (r: Result<Value, serde_json::Error>)
    ensures
        match r {
            Ok(v) => parsed_json(text@) == Some(json_tree(v)),
            Err(_) => parsed_json(text@) is None,
        },
{
    serde_json::from_str::<Value>(text)
}

/// The items of an array, through `Value::as_array`, which returns the
/// vector inside an array and `None` for any other document.
#[verifier::external_body]
pub(crate) fn items(v: &Value) -> (r: Option<&Vec<Value>>)
    ensures
        match json_tree(*v) {
            JsonTree::Array(trees) => r is Some && r.unwrap()@.len() == trees.len() && forall|
                i: int,
            |
                0 <= i < trees.len() ==> json_tree(#[trigger] r.unwrap()@[i]) == trees[i],
            _ => r is None,
        },
{
    v.as_array()
}

/// The member `name` of an object, through `Value::get` with a string key,
/// which returns `None` where the document is no object or has no such
/// member.
#[verifier::external_body]
pub(crate) fn member<'a>(v: &'a Value, name: &str) -> (r: Option<&'a Value>)
    ensures
        match json_tree(*v) {
            JsonTree::Object(members) => if members.contains_key(name@) {
                r is Some && json_tree(*r.unwrap()) == members[name@]
            } else {
                r is None
            },
            _ => r is None,
        },
{
    v.get(name)
}

/// The text of a string, through `Value::as_str`, which returns `None` for
/// any other document.
#[verifier::external_body]
pub(crate) fn text_of(v: &Value) -> (r: Option<&str>)
    ensures
        match json_tree(*v) {
            JsonTree::Text(s) => r is Some && r.unwrap()@ == s,
            _ => r is None,
        },
{
    v.as_str()
}

/// Writes `s` as a JSON string literal: `Value::from` makes the string a
/// document, and the `Display` impl of `Value` writes it as compact JSON. The
/// result is a function of the text alone, named `json_string`.
#[verifier::external_body]
pub(crate) fn quoted(s: &str) -> (r: String)
    ensures
        r@ == json_string(s@),
{
    Value::from(s).to_string()
}

} // verus!
