//! The envelope in which the service replies, and where the answer sits in
//! it.

use crate::error::{FetchError, FetchErrorView};
use crate::json::{get_array, get_member, is_null, json_text, value_tree, write_document, Json};
use vstd::prelude::*;

verus! {

/// The member of `node` under `key`; nothing where there is no node.
pub open spec fn member_of(node: Option<Json>, key: Seq<char>) -> Option<Json> {
    match node {
        Some(tree) => tree.member(key),
        None => None,
    }
}

/// The first element of `node`; nothing where there is no node.
pub open spec fn first_of(node: Option<Json>) -> Option<Json> {
    match node {
        Some(tree) => tree.element(0),
        None => None,
    }
}

/// The node at `candidates[0].content.parts[0].text`, where every step of
/// that path exists.
pub open spec fn answer_node(doc: Json) -> Option<Json> {
    let candidate = first_of(doc.member("candidates"@));
    let part = first_of(member_of(member_of(candidate, "content"@), "parts"@));
    member_of(part, "text"@)
}

/// What a reply amounts to before its answer is unwrapped.
///
/// A member `error` at the top decides alone: its payload is the failure,
/// whatever else the reply holds. Without one, the answer is the node at the
/// answer path, written as JSON text; a reply that has no such node, or has
/// `null` there, is of an unexpected shape.
pub open spec fn answer_in(doc: Json) -> Result<Seq<char>, FetchErrorView> {
    match doc.member("error"@) {
        Some(payload) => Err(FetchErrorView::UpstreamError(json_text(payload))),
        None => match answer_node(doc) {
            Some(node) => if node is Null {
                Err(FetchErrorView::UnexpectedResponseShape)
            } else {
                Ok(json_text(node))
            },
            None => Err(FetchErrorView::UnexpectedResponseShape),
        },
    }
}

/// The tree behind a borrowed value, where there is one.
spec fn tree_behind(node: Option<&serde_json::Value>) -> Option<Json> {
    match node {
        Some(value) => Some(value_tree(*value)),
        None => None,
    }
}

/// One step down by key.
fn step_member<'a>(node: Option<&'a serde_json::Value>, key: &str) -> (res: Option<
    &'a serde_json::Value,
>)
    ensures
        tree_behind(res) == member_of(tree_behind(node), key@),
{
    match node {
        Some(value) => get_member(value, key),
        None => None,
    }
}

/// One step down to the first element.
fn step_first<'a>(node: Option<&'a serde_json::Value>) -> (res: Option<&'a serde_json::Value>)
    ensures
        tree_behind(res) == first_of(tree_behind(node)),
{
    match node {
        Some(value) => match get_array(value) {
            Some(items) => if items.len() > 0 {
                Some(&items[0])
            } else {
                None
            },
            None => None,
        },
        None => None,
    }
}

/// Walks the answer path.
fn find_answer_node<'a>(doc: &'a serde_json::Value) -> (res: Option<&'a serde_json::Value>)
    ensures
        tree_behind(res) == answer_node(value_tree(*doc)),
{
    let candidate = step_first(get_member(doc, "candidates"));
    let part = step_first(step_member(step_member(candidate, "content"), "parts"));
    step_member(part, "text")
}

/// Takes the answer out of a reply, still wrapped.
///
/// An `error` member is reported as [`FetchError::UpstreamError`] with its
/// payload, and the rest of the reply is then not looked at. Otherwise the
/// result is the JSON text of the node at the answer path, or
/// [`FetchError::UnexpectedResponseShape`] where that node is missing or
/// `null`.
pub fn wrapped_answer(doc: &serde_json::Value) -> (res: Result<String, FetchError>)
    ensures
        match res {
            Ok(raw) => answer_in(value_tree(*doc)) == Ok::<Seq<char>, FetchErrorView>(raw@),
            Err(e) => answer_in(value_tree(*doc)) == Err::<Seq<char>, FetchErrorView>(e@),
        },
{
    match get_member(doc, "error") {
        Some(payload) => Err(FetchError::UpstreamError(write_document(payload))),
        None => match find_answer_node(doc) {
            Some(node) => if is_null(node) {
                Err(FetchError::UnexpectedResponseShape)
            } else {
                Ok(write_document(node))
            },
            None => Err(FetchError::UnexpectedResponseShape),
        },
    }
}

} // verus!
