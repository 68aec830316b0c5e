//! Messages exchanged with a model and the content that it streams back.
use vstd::prelude::*;

verus! {

/// A piece of plain text.
pub struct Text {
    pub text: String,
}

/// The function that a tool call asks for, with its arguments as JSON text.
pub struct ToolFunction {
    pub name: String,
    pub arguments: String,
}

/// A request of the assistant to call a tool.
pub struct ToolCall {
    pub id: String,
    pub function: ToolFunction,
}

/// One piece of what an assistant answers: text, or a tool call.
pub enum AssistantContent {
    Text(Text),
    ToolCall(ToolCall),
}

/// A message of a conversation.
pub enum Message {
    /// A message written by the user.
    User { content: String },
    /// A message written by the assistant.
    Assistant { content: String },
}

impl Message {
    /// The user message whose content is `text`.
    pub fn user(text: String) -> (m: Message)
        ensures
            m == (Message::User { content: text }),
    {
        Message::User { content: text }
    }
}

/// A string is taken as the user message that holds it.
impl From<String> for Message {
    fn from(text: String) -> (m: Message)
        ensures
            m == (Message::User { content: text }),
    {
        Message::user(text)
    }
}

impl vstd::std_specs::convert::FromSpecImpl<String> for Message {
    open spec fn obeys_from_spec() -> bool {
        true
    }

    open spec fn from_spec(text: String) -> Message {
        Message::User { content: text }
    }
}

/// A string is converted to the user message that holds exactly it, never to an
/// assistant message, whatever the string.
pub proof fn lemma_string_becomes_user_message(text: String)
    ensures
        <Message as vstd::std_specs::convert::FromSpec<String>>::from_spec(text) == (Message::User {
            content: text,
        }),
        !(<Message as vstd::std_specs::convert::FromSpec<String>>::from_spec(text) is Assistant),
{
}

} // verus!
