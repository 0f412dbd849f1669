//! The ways in which fetching candidates can fail.

use vstd::prelude::*;

verus! {

/// Why no candidates were obtained.
#[derive(Clone, Debug, PartialEq, Eq)]
pub enum FetchError {
    /// No API key was configured.
    MissingApiKey,
    /// The exchange with the service did not complete; the field says why.
    NetworkFailure(String),
    /// The service answered with an error of its own; the field holds its
    /// payload, as JSON text.
    UpstreamError(String),
    /// The reply is not a JSON document, or holds no answer where one is
    /// expected.
    UnexpectedResponseShape,
    /// The answer, once unwrapped, is not a list of candidates.
    MalformedCandidateList,
}

/// A [`FetchError`] as specifications see it.
pub enum FetchErrorView {
    MissingApiKey,
    NetworkFailure(Seq<char>),
    UpstreamError(Seq<char>),
    UnexpectedResponseShape,
    MalformedCandidateList,
}

impl FetchErrorView {
    /// The line that describes the failure to an operator.
    pub open spec fn message(self) -> Seq<char> {
        match self {
            FetchErrorView::MissingApiKey => "GEMINI_API_KEY is not set"@,
            FetchErrorView::NetworkFailure(reason) => reason,
            FetchErrorView::UpstreamError(payload) => payload,
            FetchErrorView::UnexpectedResponseShape => "Unexpected error."@,
            FetchErrorView::MalformedCandidateList => "The answer is not a list of candidates."@,
        }
    }
}

impl View for FetchError {
    type V = FetchErrorView;

    open spec fn view(&self) -> FetchErrorView {
        match self {
            FetchError::MissingApiKey => FetchErrorView::MissingApiKey,
            FetchError::NetworkFailure(reason) => FetchErrorView::NetworkFailure(reason@),
            FetchError::UpstreamError(payload) => FetchErrorView::UpstreamError(payload@),
            FetchError::UnexpectedResponseShape => FetchErrorView::UnexpectedResponseShape,
            FetchError::MalformedCandidateList => FetchErrorView::MalformedCandidateList,
        }
    }
}

impl FetchError {
    /// The line that describes the failure to an operator. What the service
    /// or the transport reported is handed on unchanged.
    pub fn message(&self) -> (line: String)
        ensures
            line@ == self@.message(),
    {
        match self {
            FetchError::MissingApiKey => "GEMINI_API_KEY is not set".to_owned(),
            FetchError::NetworkFailure(reason) => reason.clone(),
            FetchError::UpstreamError(payload) => payload.clone(),
            FetchError::UnexpectedResponseShape => "Unexpected error.".to_owned(),
            FetchError::MalformedCandidateList => "The answer is not a list of candidates.".to_owned(),
        }
    }
}

} // verus!
