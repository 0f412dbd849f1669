//! The conversation that is sent to the service: turns, each spoken by the
//! user or by the model, collected into one request.

use vstd::prelude::*;

verus! {

/// Who speaks a turn of the conversation.
#[derive(Clone, Copy, Debug, PartialEq, Eq, Structural)]
pub enum MessageRole {
    User,
    Model,
}

impl MessageRole {
    /// The name of a role on the wire.
    pub open spec fn wire_name(self) -> Seq<char> {
        match self {
            MessageRole::User => "user"@,
            MessageRole::Model => "model"@,
        }
    }

    /// The name by which the service knows this role: `user` or `model`.
    pub fn name(&self) -> (name: &'static str)
        ensures
            name@ == self.wire_name(),
    {
        match self {
            MessageRole::User => "user",
            MessageRole::Model => "model",
        }
    }
}

/// One piece of a turn. The service knows several kinds of parts; this crate
/// only ever sends text.
#[derive(Debug)]
pub struct MessagePart {
    pub text: String,
}

impl View for MessagePart {
    type V = Seq<char>;

    open spec fn view(&self) -> Seq<char> {
        self.text@
    }
}

/// A turn as specifications see it: the speaker and the text of each part.
pub struct MessageView {
    pub role: MessageRole,
    pub parts: Seq<Seq<char>>,
}

/// One turn of the conversation.
#[derive(Debug)]
pub struct Message {
    role: MessageRole,
    parts: Vec<MessagePart>,
}

impl View for Message {
    type V = MessageView;

    closed spec fn view(&self) -> MessageView {
        MessageView { role: self.role, parts: self.parts@.map_values(|p: MessagePart| p@) }
    }
}

/// The turn in which `role` says `text`, as a single part.
pub open spec fn turn(role: MessageRole, text: Seq<char>) -> MessageView {
    MessageView { role, parts: seq![text] }
}

impl Message {
    /// A turn with exactly one part, holding `text` unchanged.
    pub fn new(role: MessageRole, text: &str) -> (msg: Self)
        ensures
            msg@ == turn(role, text@),
    {
        let msg = Message { role, parts: vec![MessagePart { text: text.to_owned() }] };
        assert(msg.parts@.map_values(|p: MessagePart| p@) =~= seq![text@]);
        msg
    }

    /// The speaker of this turn.
    pub fn role(&self) -> (role: MessageRole)
        ensures
            role == self@.role,
    {
        self.role
    }

    /// The parts of this turn, in order.
    pub fn parts(&self) -> (parts: &Vec<MessagePart>)
        ensures
            parts@.map_values(|p: MessagePart| p@) == self@.parts,
    {
        &self.parts
    }
}

/// The body of one request: the turns of the conversation, oldest first.
#[derive(Debug)]
pub struct ChatRequest {
    contents: Vec<Message>,
}

impl View for ChatRequest {
    type V = Seq<MessageView>;

    closed spec fn view(&self) -> Seq<MessageView> {
        self.contents@.map_values(|m: Message| m@)
    }
}

impl ChatRequest {
    /// A request made of `messages`, in the order given.
    pub fn new(messages: Vec<Message>) -> (req: Self)
        ensures
            req@ == messages@.map_values(|m: Message| m@),
    {
        ChatRequest { contents: messages }
    }

    /// The turns of this request, oldest first.
    pub fn contents(&self) -> (contents: &Vec<Message>)
        ensures
            contents@.map_values(|m: Message| m@) == self@,
    {
        &self.contents
    }
}

} // verus!
