use ai_channel::completion::{
    check_request, completion_text, interpret_response, prepare_request, to_request_message,
    CompletionError, RETRY_BUDGET_SECS, TOKEN_BUDGET,
};
use ai_channel::message::RoleTaggedMessage;
use ai_channel::notice::notice_text;
use async_openai::error::OpenAIError;
use async_openai::types::{
    ChatCompletionRequestAssistantMessageContent, ChatCompletionRequestMessage,
    ChatCompletionRequestSystemMessageContent, ChatCompletionRequestUserMessageContent,
    CreateChatCompletionRequest,
};

#[test]
fn budgets_are_as_documented() {
    assert_eq!(TOKEN_BUDGET, 400);
    assert_eq!(RETRY_BUDGET_SECS, 5);
}

#[test]
fn first_choice_text_is_the_completion() {
    let choices = vec![Some("first".to_string()), Some("second".to_string())];
    assert_eq!(completion_text(choices), Ok("first".to_string()));
}

#[test]
fn single_choice_text_is_the_completion() {
    assert_eq!(completion_text(vec![Some("only".to_string())]), Ok("only".to_string()));
}

#[test]
fn empty_text_is_still_a_completion() {
    assert_eq!(completion_text(vec![Some(String::new())]), Ok(String::new()));
}

#[test]
fn no_choices_is_no_response_content() {
    assert_eq!(completion_text(Vec::new()), Err(CompletionError::NoResponseContent));
}

#[test]
fn first_choice_without_text_is_no_response_content() {
    let choices = vec![None, Some("second".to_string())];
    assert_eq!(completion_text(choices), Err(CompletionError::NoResponseContent));
}

#[test]
fn failed_request_is_a_transport_error() {
    let failure = OpenAIError::StreamError("connection reset".to_string());
    assert_eq!(interpret_response(Err(failure)), Err(CompletionError::Transport));
}

#[test]
fn answered_request_is_read_like_its_choices() {
    assert_eq!(interpret_response(Ok(vec![Some("hi".to_string())])), Ok("hi".to_string()));
    assert_eq!(interpret_response(Ok(vec![None])), Err(CompletionError::NoResponseContent));
    assert_eq!(interpret_response(Ok(Vec::new())), Err(CompletionError::NoResponseContent));
}

#[test]
fn each_failure_has_its_description() {
    assert_eq!(CompletionError::RequestConstruction.description(), "Failed to build request");
    assert_eq!(CompletionError::Transport.description(), "LLM api returned an error");
    assert_eq!(
        CompletionError::NoResponseContent.description(),
        "LLM response did not include message content"
    );
}

#[test]
fn notice_wraps_the_description_in_a_code_block() {
    assert_eq!(
        notice_text(CompletionError::Transport),
        "Something went wrong while generating a response\n```\nLLM api returned an error\n```"
    );
    assert_eq!(
        notice_text(CompletionError::NoResponseContent),
        "Something went wrong while generating a response\n```\n\
         LLM response did not include message content\n```"
    );
    assert_eq!(
        notice_text(CompletionError::RequestConstruction),
        "Something went wrong while generating a response\n```\nFailed to build request\n```"
    );
}

#[test]
fn entries_convert_to_request_messages_of_their_role() {
    let system = to_request_message(&RoleTaggedMessage::system("be kind".to_string()));
    match system {
        ChatCompletionRequestMessage::System(message) => {
            assert_eq!(
                message.content,
                ChatCompletionRequestSystemMessageContent::Text("be kind".to_string())
            );
            assert_eq!(message.name, None);
        }
        other => panic!("not a system message: {other:?}"),
    }
    let user = to_request_message(&RoleTaggedMessage::user("hello".to_string()));
    match user {
        ChatCompletionRequestMessage::User(message) => {
            assert_eq!(
                message.content,
                ChatCompletionRequestUserMessageContent::Text("hello".to_string())
            );
            assert_eq!(message.name, None);
        }
        other => panic!("not a user message: {other:?}"),
    }
    let assistant = to_request_message(&RoleTaggedMessage::assistant("hi".to_string()));
    match assistant {
        ChatCompletionRequestMessage::Assistant(message) => {
            assert_eq!(
                message.content,
                Some(ChatCompletionRequestAssistantMessageContent::Text("hi".to_string()))
            );
            assert_eq!(message.name, None);
            assert_eq!(message.tool_calls, None);
        }
        other => panic!("not an assistant message: {other:?}"),
    }
}

#[test]
fn prepared_request_carries_model_budget_and_messages_in_order() {
    let messages = vec![
        RoleTaggedMessage::system("prompt".to_string()),
        RoleTaggedMessage::user("question".to_string()),
        RoleTaggedMessage::assistant("answer".to_string()),
        RoleTaggedMessage::user("follow-up".to_string()),
    ];
    let request = prepare_request("some-model", 400, &messages).expect("request builds");
    assert_eq!(request.model, "some-model");
    assert_eq!(request.max_tokens, Some(400));
    assert_eq!(request.messages.len(), 4);
    for (built, entry) in request.messages.iter().zip(messages.iter()) {
        assert_eq!(*built, to_request_message(entry));
    }
    assert!(matches!(request.messages[0], ChatCompletionRequestMessage::System(_)));
    assert!(matches!(request.messages[1], ChatCompletionRequestMessage::User(_)));
    assert!(matches!(request.messages[2], ChatCompletionRequestMessage::Assistant(_)));
    assert!(matches!(request.messages[3], ChatCompletionRequestMessage::User(_)));
    assert_eq!(request.stream, None);
    assert_eq!(request.temperature, None);
}

#[test]
fn prepared_request_may_hold_no_messages() {
    let request = prepare_request("m", 1, &Vec::new()).expect("request builds");
    assert!(request.messages.is_empty());
    assert_eq!(request.max_tokens, Some(1));
}

#[test]
fn built_request_is_passed_on_unchanged() {
    let request = CreateChatCompletionRequest { model: "m".to_string(), ..Default::default() };
    assert_eq!(check_request(Ok(request.clone())), Ok(request));
}

#[test]
fn failure_to_build_is_a_request_construction_error() {
    let failure = OpenAIError::InvalidArgument("model is missing".to_string());
    assert_eq!(check_request(Err(failure)), Err(CompletionError::RequestConstruction));
}
