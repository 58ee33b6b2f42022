use ollie_rs::{OllamaMessage, OllamaMessages, OllamaToolCalls};
use serde_json::Value;

fn json(text: &str) -> Value {
    serde_json::from_str(text).unwrap()
}

#[test]
fn ollama_message_test_new() {
    let msg = OllamaMessage::new();
    assert_eq!(msg.role(), None);
    assert_eq!(msg.content(), None);
    assert!(msg.role().is_none());
    assert!(msg.content().is_none());
}

#[test]
fn test_set_role() {
    let mut msg = OllamaMessage::new();
    msg.set_role("user");
    assert_eq!(msg.role(), Some("user"));
}

#[test]
fn test_set_content() {
    let mut msg = OllamaMessage::new();
    msg.set_content("Hello");
    assert_eq!(msg.content(), Some("Hello"));
}

#[test]
fn ollama_message_test_from_json_valid() {
    let json_data = json(r#"{"role": "assistant", "content": "Hi there!"}"#);
    let msg_result = OllamaMessage::from_json(&json_data);
    assert!(msg_result.is_ok());
    let msg = msg_result.unwrap();
    assert_eq!(msg.role(), Some("assistant"));
    assert_eq!(msg.content(), Some("Hi there!"));
}

#[test]
fn ollama_message_test_from_json_invalid_type() {
    let json_data = json(r#"{"role": 123, "content": "Hi there!"}"#);
    let msg_result = OllamaMessage::from_json(&json_data);
    assert!(msg_result.is_err());
}

#[test]
fn test_from_json_missing_field() {
    let json_data = json(r#"{"role": "user"}"#);
    let msg_result = OllamaMessage::from_json(&json_data);
    assert!(msg_result.is_ok());
    let msg = msg_result.unwrap();
    assert_eq!(msg.role(), Some("user"));
    assert_eq!(msg.content(), None);
    assert!(msg.content().is_none());
}

#[test]
fn test_from_json_value() {
    let json = json(r#"{"role": "user", "content": "Test content from JSON"}"#);
    let message = OllamaMessage::from_json(&json).unwrap();
    assert_eq!(message.role(), Some("user"));
    assert_eq!(message.content(), Some("Test content from JSON"));
}

#[test]
fn test_from_json_value_reference() {
    let json = json(r#"{"role": "assistant", "content": "Test content from JSON reference"}"#);
    let message = OllamaMessage::from_json(&json).unwrap();
    assert_eq!(message.role(), Some("assistant"));
    assert_eq!(message.content(), Some("Test content from JSON reference"));
    assert_eq!(json["role"], "assistant");
    assert_eq!(json["content"], "Test content from JSON reference");
}

#[test]
fn test_message_accessor() {
    let mut messages = OllamaMessages::new();

    let mut first_message = OllamaMessage::new();
    first_message.set_role("user").set_content("First message");

    let mut second_message = OllamaMessage::new();
    second_message.set_role("assistant").set_content("Second message");

    messages.push_message(first_message).push_message(second_message);

    let message0 = messages.message(0);
    assert!(message0.is_some());
    assert_eq!(message0.unwrap().role(), Some("user"));

    let message1 = messages.message(1);
    assert!(message1.is_some());
    assert_eq!(message1.unwrap().content(), Some("Second message"));

    let message_out_of_bounds = messages.message(2);
    assert!(message_out_of_bounds.is_none());
    assert_eq!(messages.len(), 2);
}

#[test]
fn test_remove_thinking_with_think_tags() {
    let mut msg = OllamaMessage::new();
    msg.set_role("assistant").set_content(
        "Here's my response. <think>Let me think about this...</think> The answer is 42.",
    );

    let result = msg.remove_thinking();
    assert!(result.is_some());
    let cleaned_msg = result.unwrap();
    assert_eq!(cleaned_msg.role(), Some("assistant"));
    assert_eq!(cleaned_msg.content(), Some("Here's my response.  The answer is 42."));
}

#[test]
fn test_remove_thinking_no_think_tags() {
    let mut msg = OllamaMessage::new();
    msg.set_role("user").set_content("Just a regular message without thinking tags.");

    let result = msg.remove_thinking();
    assert!(result.is_none());
}

#[test]
fn test_remove_thinking_empty_content() {
    let msg = OllamaMessage::new();
    let result = msg.remove_thinking();
    assert!(result.is_none());
}

#[test]
fn test_remove_thinking_multiple_tags() {
    let mut msg = OllamaMessage::new();
    msg.set_role("assistant").set_content(
        "Start <think>first thought</think> middle <think>second thought</think> end.",
    );

    let result = msg.remove_thinking();
    assert!(result.is_some());
    let cleaned_msg = result.unwrap();
    assert_eq!(cleaned_msg.content(), Some("Start  middle  end."));
}

#[test]
fn test_remove_thinking_with_attributes() {
    let mut msg = OllamaMessage::new();
    msg.set_role("assistant")
        .set_content("Response <think type=\"analysis\">detailed thinking</think> continues.");

    let result = msg.remove_thinking();
    assert!(result.is_some());
    let cleaned_msg = result.unwrap();
    assert_eq!(cleaned_msg.content(), Some("Response  continues."));
}

#[test]
fn remove_thinking_keeps_the_other_parts() {
    let mut msg = OllamaMessage::new();
    msg.set_role("tool").set_name("lookup").set_content("<think>x</think>done");
    let cleaned = msg.remove_thinking().unwrap();
    assert_eq!(cleaned.role(), Some("tool"));
    assert_eq!(cleaned.name(), Some("lookup"));
    assert_eq!(cleaned.content(), Some("done"));
    assert_eq!(msg.content(), Some("<think>x</think>done"));
}

#[test]
fn message_setters_leave_the_other_parts() {
    let mut msg = OllamaMessage::new();
    msg.set_role("user").set_content("a").set_name("n");
    msg.set_content("b");
    assert_eq!(msg.role(), Some("user"));
    assert_eq!(msg.content(), Some("b"));
    assert_eq!(msg.name(), Some("n"));
    assert!(msg.tool_calls().is_none());
    let copy = msg.clone();
    assert_eq!(copy.role(), Some("user"));
    assert_eq!(copy.content(), Some("b"));
    assert_eq!(copy.name(), Some("n"));
}

#[test]
fn message_from_json_reads_null_as_absent() {
    let msg = OllamaMessage::from_json(&json(r#"{"role": null, "content": "x", "other": 1}"#))
        .unwrap();
    assert_eq!(msg.role(), None);
    assert_eq!(msg.content(), Some("x"));
}

#[test]
fn message_from_json_refuses_what_is_no_object() {
    assert_eq!(
        OllamaMessage::from_json(&json(r#"["role", "user"]"#)).err(),
        Some(ollie_rs::DecodeError::NotAnObject)
    );
    assert_eq!(
        OllamaMessage::from_json(&json(r#""user""#)).err(),
        Some(ollie_rs::DecodeError::NotAnObject)
    );
    assert_eq!(
        OllamaMessage::from_json(&json(r#"{"content": false}"#)).err(),
        Some(ollie_rs::DecodeError::InvalidField)
    );
    assert_eq!(
        OllamaMessage::from_json(&json(r#"{"name": 7}"#)).err(),
        Some(ollie_rs::DecodeError::InvalidField)
    );
}

#[test]
fn message_from_json_reads_tool_calls() {
    let msg = OllamaMessage::from_json(&json(
        r#"{"role": "assistant", "content": "",
            "tool_calls": [{"function": {"name": "get_weather", "arguments": {"city": "Paris"}}}]}"#,
    ))
    .unwrap();
    let calls: &OllamaToolCalls = msg.tool_calls().unwrap();
    assert_eq!(calls.len(), 1);
    let call = calls.tool_call(0).unwrap();
    assert_eq!(call.name(), Some("get_weather"));
    assert_eq!(call.arguments(), Some(&json(r#"{"city": "Paris"}"#)));
}

#[test]
fn decode_error_says_what_went_wrong() {
    assert_eq!(ollie_rs::DecodeError::NotAnObject.message(), "not a JSON object");
    assert_eq!(
        ollie_rs::DecodeError::InvalidField.message(),
        "a field holds a value of the wrong type"
    );
}

#[test]
fn ollama_message_test_to_json() {
    let mut msg = OllamaMessage::new();
    msg.set_role("system").set_content("You are a helpful assistant.");
    let json_val = msg.to_json();
    let expected_json = json(r#"{"role": "system", "content": "You are a helpful assistant."}"#);
    assert_eq!(json_val, expected_json);
}

#[test]
fn ollama_message_test_to_json_empty() {
    let msg = OllamaMessage::new();
    let json_val = msg.to_json();
    let expected_json = json("{}");
    assert_eq!(json_val, expected_json);
}

#[test]
fn test_to_json_partial() {
    let mut msg = OllamaMessage::new();
    msg.set_role("user");
    let json_val = msg.to_json();
    let expected_json = json(r#"{ "role": "user" }"#);
    assert_eq!(json_val, expected_json);

    let mut msg = OllamaMessage::new();
    msg.set_content("test");
    let json_val = msg.to_json();
    let expected_json = json(r#"{ "content": "test" }"#);
    assert_eq!(json_val, expected_json);
}

#[test]
fn a_message_reads_back_from_its_json() {
    let text = r#"{"role": "assistant", "content": "", "name": "n",
        "tool_calls": [{"function": {"name": "f", "arguments": {}}}, 7]}"#;
    let msg = OllamaMessage::from_json(&json(text)).unwrap();
    assert_eq!(msg.to_json(), json(text));
    let again = OllamaMessage::from_json(&msg.to_json()).unwrap();
    assert_eq!(again.to_json(), json(text));
    assert_eq!(again.tool_calls().map(|c| c.len()), Some(2));
    let bare = OllamaMessage::from_json(&json(r#"{"role": null, "extra": 1}"#)).unwrap();
    assert_eq!(bare.to_json(), json("{}"));
}

#[test]
fn test_json_message() {
    let mut message = OllamaMessage::new();

    message.set_role("user").set_content("Hello, world!");

    assert_eq!(message.to_json()["role"], "user");
    assert_eq!(message.to_json()["content"], "Hello, world!");

    message.set_role("assistant").set_content("I'm an AI assistant");
    assert_eq!(message.to_json()["role"], "assistant");
    assert_eq!(message.to_json()["content"], "I'm an AI assistant");
}

#[test]
fn test_json_messages() {
    let mut messages = OllamaMessages::new();

    let mut user_message = OllamaMessage::new();
    user_message.set_role("user").set_content("What is the capital of France?");

    let mut assistant_message = OllamaMessage::new();
    assistant_message.set_role("assistant").set_content("The capital of France is Paris.");

    messages.push_message(user_message).push_message(assistant_message);

    let json_str = messages.as_string_pretty();
    println!("---\nmessages: {}", json_str);

    assert!(json_str.contains("What is the capital of France?"));
    assert!(json_str.contains("The capital of France is Paris."));
    assert!(json_str.contains("user"));
    assert!(json_str.contains("assistant"));
    assert_eq!(
        messages.to_json(),
        json(
            r#"[{"role": "user", "content": "What is the capital of France?"},
                {"role": "assistant", "content": "The capital of France is Paris."}]"#
        )
    );
}
