//! The fetcher: what it sends, and what it makes of the reply.
//!
//! A [`Client`] never touches the network. It says which request belongs to
//! an input ([`Client::build_request`]), and which candidates, or which
//! failure, a reply amounts to ([`Client::get_candidates`]). Carrying the
//! request to the service and the reply back is the caller's part.

use crate::candidate::{
    candidate_views, candidates_of_answer, decode_answer, CandidateView, IdentifierCandidate,
};
use crate::cleaning::unwrapped;
use crate::error::{FetchError, FetchErrorView};
use crate::json::{json_document, json_text, read_document, Json};
use crate::message::{turn, ChatRequest, Message, MessageRole, MessageView};
use crate::response::{answer_in, answer_node, wrapped_answer};
use vstd::prelude::*;

verus! {

/// Where requests are posted.
pub const ENDPOINT: &'static str =
    "https://generativelanguage.googleapis.com/v1beta/models/gemini-pro:generateContent";

/// The environment variable from which a program takes the API key.
pub const API_KEY_VARIABLE: &'static str = "GEMINI_API_KEY";

/// The query parameter under which the API key is sent.
pub const KEY_PARAMETER: &'static str = "key";

/// The opening turn: what the model is asked to do with each input.
pub const INSTRUCTION: &'static str = r#"
                    これから入力する文章から、候補となるTypeScriptの識別子をその識別子の簡単な特徴とともに5個列挙してください。
                    出力はJSON形式で行ってください。
                "#;

/// The model's reply to the opening turn.
pub const ACKNOWLEDGEMENT: &'static str = r#"分かりました。文章を入力してください。"#;

/// The input of the worked example.
pub const EXAMPLE_INPUT: &'static str = "タスクを作成する関数";

/// The answer of the worked example, in the form that every answer is to
/// take.
pub const EXAMPLE_ANSWER: &'static str = r#"[
                    {"name": "createTask", "desc": "動詞+名詞の組み合わせで、関数の目的を明確に表す一般的な命名規則"},
                    {"name": "addTask", "desc": "`createTask`と同様に関数の目的を表すが、より簡潔"},
                    {"name": "newTask", "desc": "新しいタスクを作成するという意味を強調"},
                    {"name": "generateTask", "desc": "タスクを自動的に生成するような場合に適している"},
                    {"name": "buildTask", "desc": "タスクを構築するイメージ"}
                ]"#;

/// The four turns that open every conversation: the instruction with its
/// acknowledgement, and one worked example.
pub open spec fn few_shot() -> Seq<MessageView> {
    seq![
        turn(MessageRole::User, INSTRUCTION@),
        turn(MessageRole::Model, ACKNOWLEDGEMENT@),
        turn(MessageRole::User, EXAMPLE_INPUT@),
        turn(MessageRole::Model, EXAMPLE_ANSWER@),
    ]
}

/// The conversation for `input`: the fixed turns, then the input as the
/// user's closing turn.
pub open spec fn conversation(input: Seq<char>) -> Seq<MessageView> {
    few_shot().push(turn(MessageRole::User, input))
}

/// What a reply amounts to, from its body alone.
///
/// A body that is no JSON document is of an unexpected shape. Otherwise the
/// envelope decides ([`answer_in`]), and where it yields an answer, the
/// answer does ([`candidates_of_answer`]).
pub open spec fn candidates_in(body: Seq<char>) -> Result<Seq<CandidateView>, FetchErrorView> {
    match json_document(body) {
        Some(doc) => match answer_in(doc) {
            Ok(raw) => candidates_of_answer(raw),
            Err(e) => Err(e),
        },
        None => Err(FetchErrorView::UnexpectedResponseShape),
    }
}

/// What an exchange amounts to: a reply is judged by its body, and an
/// exchange that did not complete is a network failure for the reason given.
pub open spec fn outcome_of(exchange: Result<Seq<char>, Seq<char>>) -> Result<
    Seq<CandidateView>,
    FetchErrorView,
> {
    match exchange {
        Ok(body) => candidates_in(body),
        Err(reason) => Err(FetchErrorView::NetworkFailure(reason)),
    }
}

/// An `error` member at the top of a reply decides the outcome alone: the
/// failure carries its payload, and nothing else that the reply holds, an
/// answer included, is taken into account.
pub proof fn lemma_upstream_error_decides(body: Seq<char>, doc: Json, payload: Json)
    requires
        json_document(body) == Some(doc),
        doc.member("error"@) == Some(payload),
    ensures
        candidates_in(body) == Err::<Seq<CandidateView>, FetchErrorView>(
            FetchErrorView::UpstreamError(json_text(payload)),
        ),
{
}

/// A reply without an `error` member in which the answer path leads nowhere,
/// or to `null`, is of an unexpected shape.
pub proof fn lemma_missing_answer_is_unexpected_shape(body: Seq<char>, doc: Json)
    requires
        json_document(body) == Some(doc),
        doc.member("error"@) is None,
        answer_node(doc) is None || answer_node(doc) == Some(Json::Null),
    ensures
        candidates_in(body) == Err::<Seq<CandidateView>, FetchErrorView>(
            FetchErrorView::UnexpectedResponseShape,
        ),
{
}

/// A reply whose answer, once unwrapped, is no JSON document yields a
/// malformed candidate list.
pub proof fn lemma_unreadable_answer_is_malformed(body: Seq<char>, doc: Json, node: Json)
    requires
        json_document(body) == Some(doc),
        doc.member("error"@) is None,
        answer_node(doc) == Some(node),
        !(node is Null),
        json_document(unwrapped(json_text(node))) is None,
    ensures
        candidates_in(body) == Err::<Seq<CandidateView>, FetchErrorView>(
            FetchErrorView::MalformedCandidateList,
        ),
{
}

/// An exchange as specifications see it.
pub open spec fn exchange_view(exchange: Result<String, String>) -> Result<Seq<char>, Seq<char>> {
    match exchange {
        Ok(body) => Ok(body@),
        Err(reason) => Err(reason@),
    }
}

/// A client as specifications see it.
pub struct ClientView {
    pub url: Seq<char>,
    pub api_key: Seq<char>,
}

/// The configuration of the fetcher: where to post, and with which key.
#[derive(Debug)]
pub struct Client {
    url: String,
    api_key: String,
}

impl View for Client {
    type V = ClientView;

    closed spec fn view(&self) -> ClientView {
        ClientView { url: self.url@, api_key: self.api_key@ }
    }
}

impl Client {
    /// A client for the fixed endpoint that authenticates with `api_key`.
    /// Without a key there is no client: that is
    /// [`FetchError::MissingApiKey`].
    pub fn new(api_key: Option<String>) -> (res: Result<Self, FetchError>)
        ensures
            match res {
                Ok(client) => api_key matches Some(key) && client@ == (ClientView {
                    url: ENDPOINT@,
                    api_key: key@,
                }),
                Err(e) => api_key is None && e == FetchError::MissingApiKey,
            },
    {
        match api_key {
            Some(key) => Ok(Client { url: ENDPOINT.to_owned(), api_key: key }),
            None => Err(FetchError::MissingApiKey),
        }
    }

    /// The address to post to.
    pub fn url(&self) -> (url: &str)
        ensures
            url@ == self@.url,
    {
        self.url.as_str()
    }

    /// The key to send along, as the query parameter [`KEY_PARAMETER`].
    pub fn api_key(&self) -> (key: &str)
        ensures
            key@ == self@.api_key,
    {
        self.api_key.as_str()
    }

    /// The request for `text`: the four fixed turns, followed by one turn in
    /// which the user says `text`, unchanged. An empty text is sent like any
    /// other.
    pub fn build_request(&self, text: &str) -> (req: ChatRequest)
        ensures
            req@ == conversation(text@),
    {
        let turns = vec![
            Message::new(MessageRole::User, INSTRUCTION),
            Message::new(MessageRole::Model, ACKNOWLEDGEMENT),
            Message::new(MessageRole::User, EXAMPLE_INPUT),
            Message::new(MessageRole::Model, EXAMPLE_ANSWER),
            Message::new(MessageRole::User, text),
        ];
        ChatRequest::new(turns)
    }

    /// The candidates that the reply with this body holds, in the order in
    /// which the model gave them, or the reason why it holds none.
    pub fn get_candidates(&self, body: &str) -> (res: Result<Vec<IdentifierCandidate>, FetchError>)
        ensures
            match res {
                Ok(list) => candidates_in(body@) == Ok::<Seq<CandidateView>, FetchErrorView>(
                    candidate_views(list@),
                ),
                Err(e) => candidates_in(body@) == Err::<Seq<CandidateView>, FetchErrorView>(e@),
            },
    {
        let doc = match read_document(body) {
            Ok(doc) => doc,
            Err(_) => {
                return Err(FetchError::UnexpectedResponseShape);
            },
        };
        match wrapped_answer(&doc) {
            Ok(raw) => decode_answer(raw.as_str()),
            Err(e) => Err(e),
        }
    }

    /// Concludes a fetch from what came of its one exchange: the body of the
    /// reply, or the reason why there is none. A reply is judged as
    /// [`Client::get_candidates`] judges it; a failed exchange is a
    /// [`FetchError::NetworkFailure`] that hands the reason on. Nothing is
    /// tried a second time.
    pub fn conclude(&self, exchange: Result<String, String>) -> (res: Result<
        Vec<IdentifierCandidate>,
        FetchError,
    >)
        ensures
            match res {
                Ok(list) => outcome_of(exchange_view(exchange)) == Ok::<
                    Seq<CandidateView>,
                    FetchErrorView,
                >(candidate_views(list@)),
                Err(e) => outcome_of(exchange_view(exchange)) == Err::<
                    Seq<CandidateView>,
                    FetchErrorView,
                >(e@),
            },
    {
        match exchange {
            Ok(body) => self.get_candidates(body.as_str()),
            Err(reason) => Err(FetchError::NetworkFailure(reason)),
        }
    }
}

} // verus!
