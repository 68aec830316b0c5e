//! Requests to a completion model and the errors of prompting one.
use vstd::prelude::*;

use crate::message::Message;

verus! {

/// An error of a completion model, with the description that the model gave.
pub enum CompletionError {
    /// The HTTP exchange with the provider failed.
    HttpError(String),
    /// A JSON document could not be read or written.
    JsonError(String),
    /// The request could not be built.
    RequestError(String),
    /// The response could not be read.
    ResponseError(String),
    /// The provider reported an error.
    ProviderError(String),
}

/// An error of prompting an agent.
pub enum PromptError {
    /// The completion model failed.
    CompletionError(CompletionError),
    /// A tool that the agent called failed.
    ToolError(String),
}

/// A document handed to the model beside the conversation.
pub struct Document {
    pub id: String,
    pub text: String,
}

/// A tool that the model may call; its parameters are a JSON schema, as text.
pub struct ToolDefinition {
    pub name: String,
    pub description: String,
    pub parameters: String,
}

/// A request to a completion model.
///
/// `temperature` is given in thousandths (a value of 700 stands for 0.7), and
/// `additional_params` as JSON text.
pub struct CompletionRequest {
    pub chat_history: Vec<Message>,
    pub preamble: Option<String>,
    pub documents: Vec<Document>,
    pub tools: Vec<ToolDefinition>,
    pub temperature: Option<u32>,
    pub max_tokens: Option<u64>,
    pub additional_params: Option<String>,
}

impl CompletionRequest {
    /// The request whose whole conversation is `prompt`: no preamble, documents or
    /// tools, and every setting left to the model.
    pub open spec fn single_prompt(self, prompt: Message) -> bool {
        &&& self.chat_history@ == seq![prompt]
        &&& self.preamble is None
        &&& self.documents@.len() == 0
        &&& self.tools@.len() == 0
        &&& self.temperature is None
        &&& self.max_tokens is None
        &&& self.additional_params is None
    }
}

/// A request whose whole conversation is `prompt` holds exactly that message, as it
/// is (same role, same content), and nothing besides.
pub proof fn lemma_single_prompt_request_holds_the_prompt(request: CompletionRequest, prompt: Message)
    requires
        request.single_prompt(prompt),
    ensures
        request.chat_history@.len() == 1,
        request.chat_history@[0] == prompt,
        request.preamble is None,
        request.documents@.len() == 0,
        request.tools@.len() == 0,
        request.temperature is None,
        request.max_tokens is None,
        request.additional_params is None,
{
}

} // verus!
