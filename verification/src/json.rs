//! JSON documents, as `serde_json` reads and writes them.
//!
//! A document is held as a `serde_json::Value`, which the verifier cannot look
//! into. Specifications speak of the tree that a value stands for, [`Json`],
//! and the functions at the end of this file tie each operation of
//! `serde_json` that the crate relies on to that tree. Those functions are
//! believed, not proved; everything else in the crate is proved from them.

use vstd::prelude::*;

verus! {

/// `serde_json::Value`, carried through without a look inside.
#[verifier::external_type_specification]
#[verifier::external_body]
pub struct ExValue(serde_json::Value);

/// `serde_json::Error`, carried through without a look inside.
#[verifier::external_type_specification]
#[verifier::external_body]
pub struct ExError(serde_json::Error);

/// A JSON document as a mathematical tree.
pub enum Json {
    Null,
    Bool(bool),
    /// A number, by the text that `serde_json` prints for it.
    Number(Seq<char>),
    Text(Seq<char>),
    Array(Seq<Json>),
    /// An object, by its members. A key occurs once.
    Object(Map<Seq<char>, Json>),
}

impl Json {
    /// The member of an object that `key` names.
    pub open spec fn member(self, key: Seq<char>) -> Option<Json> {
        match self {
            Json::Object(members) => if members.contains_key(key) {
                Some(members[key])
            } else {
                None
            },
            _ => None,
        }
    }

    /// The element of an array at position `at`.
    pub open spec fn element(self, at: int) -> Option<Json> {
        match self {
            Json::Array(items) => if 0 <= at < items.len() {
                Some(items[at])
            } else {
                None
            },
            _ => None,
        }
    }
}

/// The tree that a value stands for.
pub uninterp spec fn value_tree(value: serde_json::Value) -> Json;

/// The document that `serde_json` reads a text as; `None` where it refuses
/// the text, as it does whatever is not exactly one JSON document.
pub uninterp spec fn json_document(text: Seq<char>) -> Option<Json>;

/// The text that `serde_json` writes a tree as, in its compact form: no
/// white space, and the members of an object in the order of their keys.
pub uninterp spec fn json_text(tree: Json) -> Seq<char>;

/// The trees of a run of values, in order.
pub open spec fn trees_of(values: Seq<serde_json::Value>) -> Seq<Json> {
    values.map_values(|value: serde_json::Value| value_tree(value))
}

/// Reads `text` as one JSON document with `serde_json::from_str`.
///
/// Believed: the outcome depends on the text alone, and what is read is the
/// document that [`json_document`] names.
#[verifier::external_body]
pub(crate) fn read_document(text: &str) -> (res: Result<serde_json::Value, serde_json::Error>)
    ensures
        match res {
            Ok(value) => json_document(text@) == Some(value_tree(value)),
            Err(_) => json_document(text@) is None,
        },
{
    serde_json::from_str::<serde_json::Value>(text)
}

/// Looks a key up with `serde_json::Value::get`.
///
/// Believed: the result is the member under `key` where `value` is an object
/// that has one, and `None` otherwise.
#[verifier::external_body]
pub(crate) fn get_member<'a>(value: &'a serde_json::Value, key: &str) -> (res: Option<
    &'a serde_json::Value,
>)
    ensures
        match res {
            Some(found) => value_tree(*value).member(key@) == Some(value_tree(*found)),
            None => value_tree(*value).member(key@) is None,
        },
{
    value.get(key)
}

/// Borrows the elements of an array with `serde_json::Value::as_array`.
///
/// Believed: the result holds the elements in order where `value` is an
/// array, and is `None` otherwise.
#[verifier::external_body]
pub(crate) fn get_array<'a>(value: &'a serde_json::Value) -> (res: Option<
    &'a Vec<serde_json::Value>,
>)
    ensures
        match res {
            Some(items) => value_tree(*value) == Json::Array(trees_of(items@)),
            None => !(value_tree(*value) is Array),
        },
{
    value.as_array()
}

/// Borrows the content of a string with `serde_json::Value::as_str`.
///
/// Believed: the result is the string's content where `value` is a string,
/// and `None` otherwise.
#[verifier::external_body]
pub(crate) fn get_text<'a>(value: &'a serde_json::Value) -> (res: Option<&'a str>)
    ensures
        match res {
            Some(text) => value_tree(*value) == Json::Text(text@),
            None => !(value_tree(*value) is Text),
        },
{
    value.as_str()
}

/// Tests for `null` with `serde_json::Value::is_null`.
///
/// Believed: the result says whether `value` is `null`.
#[verifier::external_body]
pub(crate) fn is_null(value: &serde_json::Value) -> (res: bool)
    ensures
        res == (value_tree(*value) is Null),
{
    value.is_null()
}

/// Writes a value in the compact form, through its `Display` impl.
///
/// Believed: the text depends on the tree alone, and is the one that
/// [`json_text`] names.
#[verifier::external_body]
pub(crate) fn write_document(value: &serde_json::Value) -> (res: String)
    ensures
        res@ == json_text(value_tree(*value)),
{
    value.to_string()
}

} // verus!
