//! Candidates, and how a list of them is read out of a JSON document.

use crate::cleaning::{unwrap_answer, unwrapped};
use crate::error::{FetchError, FetchErrorView};
use crate::json::{
    get_array, get_member, get_text, json_document, read_document, trees_of, value_tree, Json,
};
use vstd::prelude::*;

verus! {

/// A suggested identifier and the reason for it.
#[derive(Clone, Debug, PartialEq, Eq)]
pub struct IdentifierCandidate {
    pub name: String,
    pub desc: String,
}

/// A candidate as specifications see it.
pub struct CandidateView {
    pub name: Seq<char>,
    pub desc: Seq<char>,
}

impl View for IdentifierCandidate {
    type V = CandidateView;

    open spec fn view(&self) -> CandidateView {
        CandidateView { name: self.name@, desc: self.desc@ }
    }
}

/// The views of a run of candidates, in order.
pub open spec fn candidate_views(list: Seq<IdentifierCandidate>) -> Seq<CandidateView> {
    list.map_values(|c: IdentifierCandidate| c@)
}

/// The candidate that a tree records: the tree is an object whose members
/// `name` and `desc` are both strings. Other members are of no account.
pub open spec fn record(item: Json) -> Option<CandidateView> {
    match (item.member("name"@), item.member("desc"@)) {
        (Some(Json::Text(name)), Some(Json::Text(desc))) => Some(CandidateView { name, desc }),
        _ => None,
    }
}

/// The candidates that a run of trees records, in the same order; `None`
/// where one of the trees records none.
pub open spec fn records(items: Seq<Json>) -> Option<Seq<CandidateView>> {
    if forall|i: int| 0 <= i < items.len() ==> (#[trigger] record(items[i])) is Some {
        Some(Seq::new(items.len(), |i: int| record(items[i])->0))
    } else {
        None
    }
}

/// The candidates that a document lists: the document is an array, and each
/// of its elements records a candidate.
pub open spec fn candidate_list(doc: Json) -> Option<Seq<CandidateView>> {
    match doc {
        Json::Array(items) => records(items),
        _ => None,
    }
}

/// What a wrapped answer amounts to: the candidates that it lists once it is
/// unwrapped and read as JSON, or the failure to list any.
pub open spec fn candidates_of_answer(raw: Seq<char>) -> Result<Seq<CandidateView>, FetchErrorView> {
    match json_document(unwrapped(raw)) {
        Some(doc) => match candidate_list(doc) {
            Some(list) => Ok(list),
            None => Err(FetchErrorView::MalformedCandidateList),
        },
        None => Err(FetchErrorView::MalformedCandidateList),
    }
}

/// A list that is read holds one candidate for each element of the array, at
/// the same position: nothing is sorted, merged or left out.
pub proof fn lemma_candidates_keep_order(items: Seq<Json>, list: Seq<CandidateView>)
    requires
        candidate_list(Json::Array(items)) == Some(list),
    ensures
        list.len() == items.len(),
        forall|i: int| 0 <= i < items.len() ==> record(items[i]) == Some(#[trigger] list[i]),
{
}

/// An answer that is no JSON document once it is unwrapped is a malformed
/// candidate list.
pub proof fn lemma_unreadable_text_is_malformed(raw: Seq<char>)
    requires
        json_document(unwrapped(raw)) is None,
    ensures
        candidates_of_answer(raw) == Err::<Seq<CandidateView>, FetchErrorView>(
            FetchErrorView::MalformedCandidateList,
        ),
{
}

/// The string under `key` in `item`, where there is one.
fn text_member<'a>(item: &'a serde_json::Value, key: &str) -> (res: Option<&'a str>)
    ensures
        match res {
            Some(text) => value_tree(*item).member(key@) == Some(Json::Text(text@)),
            None => !(value_tree(*item).member(key@) matches Some(Json::Text(_))),
        },
{
    match get_member(item, key) {
        Some(found) => get_text(found),
        None => None,
    }
}

/// Reads one candidate.
fn read_record(item: &serde_json::Value) -> (res: Option<IdentifierCandidate>)
    ensures
        match res {
            Some(c) => record(value_tree(*item)) == Some(c@),
            None => record(value_tree(*item)) is None,
        },
{
    let name = text_member(item, "name");
    let desc = text_member(item, "desc");
    match (name, desc) {
        (Some(name), Some(desc)) => Some(
            IdentifierCandidate { name: name.to_owned(), desc: desc.to_owned() },
        ),
        _ => None,
    }
}

/// Reads the candidates that `doc` lists, in the order in which it lists
/// them. Nothing is sorted and nothing is dropped: either every element of
/// the array yields its candidate, or the whole list is refused as
/// [`FetchError::MalformedCandidateList`].
pub fn read_candidates(doc: &serde_json::Value) -> (res: Result<
    Vec<IdentifierCandidate>,
    FetchError,
>)
    ensures
        match res {
            Ok(list) => candidate_list(value_tree(*doc)) == Some(candidate_views(list@)),
            Err(e) => e == FetchError::MalformedCandidateList && candidate_list(
                value_tree(*doc),
            ) is None,
        },
{
    let items = match get_array(doc) {
        Some(items) => items,
        None => {
            return Err(FetchError::MalformedCandidateList);
        },
    };
    let ghost trees = trees_of(items@);
    let mut list: Vec<IdentifierCandidate> = Vec::new();
    let mut i: usize = 0;
    while i < items.len()
        invariant
            i <= items.len(),
            trees == trees_of(items@),
            value_tree(*doc) == Json::Array(trees),
            list.len() == i,
            forall|j: int| 0 <= j < i ==> (#[trigger] record(trees[j])) == Some(list@[j]@),
        decreases items.len() - i,
    {
        match read_record(&items[i]) {
            Some(c) => {
                list.push(c);
            },
            None => {
                assert(record(trees[i as int]) is None);
                return Err(FetchError::MalformedCandidateList);
            },
        }
        i = i + 1;
    }
    assert(records(trees) == Some(candidate_views(list@))) by {
        assert(records(trees)->0 =~= candidate_views(list@));
    }
    Ok(list)
}

/// Reads the candidates out of an answer as the service wraps it.
///
/// The answer is unwrapped and read as JSON. Whatever then is not an array of
/// candidate records, text that is no JSON at all included, is refused as
/// [`FetchError::MalformedCandidateList`].
pub fn decode_answer(raw: &str) -> (res: Result<Vec<IdentifierCandidate>, FetchError>)
    ensures
        match res {
            Ok(list) => candidates_of_answer(raw@) == Ok::<Seq<CandidateView>, FetchErrorView>(
                candidate_views(list@),
            ),
            Err(e) => candidates_of_answer(raw@) == Err::<Seq<CandidateView>, FetchErrorView>(e@),
        },
{
    let clean = unwrap_answer(raw);
    match read_document(clean.as_str()) {
        Ok(doc) => read_candidates(&doc),
        Err(_) => Err(FetchError::MalformedCandidateList),
    }
}

} // verus!
