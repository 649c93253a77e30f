//! Asking the model for a completion: what is sent, and how the answer is read.

use async_openai::error::OpenAIError;
use async_openai::types::ChatCompletionRequestMessage;
use async_openai::types::CreateChatCompletionRequest;
use async_openai::types::CreateChatCompletionRequestArgs;
use vstd::prelude::*;

use crate::message::{message_views, MessageView, Role, RoleTaggedMessage};

verus! {

/// One message of a request to the model, in the client library's form.
#[verifier::external_type_specification]
#[verifier::external_body]
pub struct ExChatCompletionRequestMessage(async_openai::types::ChatCompletionRequestMessage);

/// A request for a chat completion, in the client library's form.
#[verifier::external_type_specification]
#[verifier::external_body]
pub struct ExCreateChatCompletionRequest(async_openai::types::CreateChatCompletionRequest);

/// What the client library reports when a request cannot be built or fails.
#[verifier::external_type_specification]
#[verifier::external_body]
pub struct ExOpenAIError(async_openai::error::OpenAIError);

/// The largest number of tokens that the model may answer with.
pub const TOKEN_BUDGET: u32 = 400;

/// How long, in seconds, a failing request is tried again before it is given up.
pub const RETRY_BUDGET_SECS: u64 = 5;

/// Why no completion text came back.
#[derive(Clone, Copy, Debug, PartialEq, Eq, Structural)]
pub enum CompletionError {
    /// The request could not be built from its parts.
    RequestConstruction,
    /// The request was sent and failed, retries included.
    Transport,
    /// The model answered without any text.
    NoResponseContent,
}

impl CompletionError {
    /// The sentence that describes the failure.
    pub open spec fn description_text(self) -> Seq<char> {
        match self {
            CompletionError::RequestConstruction => "Failed to build request"@,
            CompletionError::Transport => "LLM api returned an error"@,
            CompletionError::NoResponseContent => "LLM response did not include message content"@,
        }
    }

    /// The sentence that describes the failure.
    pub fn description(&self) -> (text: String)
        ensures
            text@ == self.description_text(),
    {
        match self {
            CompletionError::RequestConstruction => String::from_str("Failed to build request"),
            CompletionError::Transport => String::from_str("LLM api returned an error"),
            CompletionError::NoResponseContent => String::from_str(
                "LLM response did not include message content",
            ),
        }
    }
}

/// What the client library makes of a system message with the given text.
pub uninterp spec fn system_message_of(content: Seq<char>) -> ChatCompletionRequestMessage;

/// What the client library makes of a user message with the given text.
pub uninterp spec fn user_message_of(content: Seq<char>) -> ChatCompletionRequestMessage;

/// What the client library makes of an assistant message with the given text.
pub uninterp spec fn assistant_message_of(content: Seq<char>) -> ChatCompletionRequestMessage;

/// What the client library's request builder returns for a model name, a
/// token limit and a list of messages.
pub uninterp spec fn chat_request_of(
    model: Seq<char>,
    max_tokens: u32,
    messages: Seq<ChatCompletionRequestMessage>,
) -> Result<CreateChatCompletionRequest, OpenAIError>;

/// `ChatCompletionRequestMessage::System` around the system message that the
/// client library converts `content` into. The result depends on the text
/// alone.
#[verifier::external_body]
fn system_request_message(content: &str) -> (message: ChatCompletionRequestMessage)
    ensures
        message == system_message_of(content@),
{
    ChatCompletionRequestMessage::System(content.into())
}

/// `ChatCompletionRequestMessage::User` around the user message that the
/// client library converts `content` into. The result depends on the text
/// alone.
#[verifier::external_body]
fn user_request_message(content: &str) -> (message: ChatCompletionRequestMessage)
    ensures
        message == user_message_of(content@),
{
    ChatCompletionRequestMessage::User(content.into())
}

/// `ChatCompletionRequestMessage::Assistant` around the assistant message that
/// the client library converts `content` into. The result depends on the text
/// alone.
#[verifier::external_body]
fn assistant_request_message(content: &str) -> (message: ChatCompletionRequestMessage)
    ensures
        message == assistant_message_of(content@),
{
    ChatCompletionRequestMessage::Assistant(content.into())
}

/// `CreateChatCompletionRequestArgs`: a builder that is given the model, the
/// token limit and the messages, and then asked to build. The result depends
/// on these three alone.
#[verifier::external_body]
fn build_chat_request(
    model: &str,
    max_tokens: u32,
    messages: Vec<ChatCompletionRequestMessage>,
) -> (built: Result<CreateChatCompletionRequest, OpenAIError>)
    ensures
        built == chat_request_of(model@, max_tokens, messages@),
{
    CreateChatCompletionRequestArgs::default()
        .model(model)
        .max_tokens(max_tokens)
        .messages(messages)
        .build()
}

/// The client library's form of one entry of a conversation.
pub open spec fn request_message_of(message: MessageView) -> ChatCompletionRequestMessage {
    match message.role {
        Role::System => system_message_of(message.content),
        Role::User => user_message_of(message.content),
        Role::Assistant => assistant_message_of(message.content),
    }
}

/// The client library's form of a conversation, entry by entry.
pub open spec fn request_messages_of(messages: Seq<MessageView>) -> Seq<
    ChatCompletionRequestMessage,
> {
    messages.map_values(|message: MessageView| request_message_of(message))
}

/// What becomes of a request that the builder returned: it is passed on, and a
/// failure to build is reported as such.
pub open spec fn checked_request(
    built: Result<CreateChatCompletionRequest, OpenAIError>,
) -> Result<CreateChatCompletionRequest, CompletionError> {
    match built {
        Ok(request) => Ok(request),
        Err(_) => Err(CompletionError::RequestConstruction),
    }
}

/// Converts one entry of a conversation into the client library's form.
pub fn to_request_message(message: &RoleTaggedMessage) -> (converted: ChatCompletionRequestMessage)
    ensures
        converted == request_message_of(message@),
{
    match message.role {
        Role::System => system_request_message(message.content.as_str()),
        Role::User => user_request_message(message.content.as_str()),
        Role::Assistant => assistant_request_message(message.content.as_str()),
    }
}

/// Passes a built request on, and reports a failure to build as such.
pub fn check_request(built: Result<CreateChatCompletionRequest, OpenAIError>) -> (checked: Result<
    CreateChatCompletionRequest,
    CompletionError,
>)
    ensures
        checked == checked_request(built),
{
    match built {
        Ok(request) => Ok(request),
        Err(_) => Err(CompletionError::RequestConstruction),
    }
}

/// Builds the request that asks `model` to continue `messages` with at most
/// `token_budget` tokens.
pub fn prepare_request(
    model: &str,
    token_budget: u32,
    messages: &Vec<RoleTaggedMessage>,
) -> (prepared: Result<CreateChatCompletionRequest, CompletionError>)
    ensures
        prepared == checked_request(
            chat_request_of(model@, token_budget, request_messages_of(message_views(messages@))),
        ),
{
    let mut converted: Vec<ChatCompletionRequestMessage> = Vec::new();
    let mut at: usize = 0;
    while at < messages.len()
        invariant
            at <= messages@.len(),
            converted@ == request_messages_of(message_views(messages@.take(at as int))),
        decreases messages@.len() - at,
    {
        let next = to_request_message(&messages[at]);
        converted.push(next);
        at += 1;
    }
    proof {
        assert(messages@.take(at as int) == messages@);
    }
    check_request(build_chat_request(model, token_budget, converted))
}

/// The text of the first of the choices that the model returned.
pub open spec fn first_choice_text(choices: Seq<Option<String>>) -> Result<
    String,
    CompletionError,
> {
    if choices.len() > 0 && choices[0] is Some {
        Ok(choices[0]->0)
    } else {
        Err(CompletionError::NoResponseContent)
    }
}

/// Reads the completion text out of the choices that the model returned, each
/// given by the text of its message: the text of the first choice.
pub fn completion_text(choices: Vec<Option<String>>) -> (outcome: Result<String, CompletionError>)
    ensures
        outcome == first_choice_text(choices@),
{
    let mut choices = choices;
    if choices.len() == 0 {
        return Err(CompletionError::NoResponseContent);
    }
    match choices.swap_remove(0) {
        Some(text) => Ok(text),
        None => Err(CompletionError::NoResponseContent),
    }
}

/// What a finished request amounts to: the completion text, or why there is
/// none.
pub open spec fn response_outcome(response: Result<Vec<Option<String>>, OpenAIError>) -> Result<
    String,
    CompletionError,
> {
    match response {
        Ok(choices) => first_choice_text(choices@),
        Err(_) => Err(CompletionError::Transport),
    }
}

/// Reads the outcome of a finished request: the choices of the model's answer,
/// or the failure of the request.
pub fn interpret_response(response: Result<Vec<Option<String>>, OpenAIError>) -> (outcome: Result<
    String,
    CompletionError,
>)
    ensures
        outcome == response_outcome(response),
{
    match response {
        Ok(choices) => completion_text(choices),
        Err(_) => Err(CompletionError::Transport),
    }
}

} // verus!
