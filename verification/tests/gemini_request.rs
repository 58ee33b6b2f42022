use ollie_rs::DecodeError::{InvalidField, NotAnObject};
use ollie_rs::{
    Gemini, GeminiCandidate, GeminiContent, GeminiFunctionCall, GeminiFunctionDeclaration,
    GeminiFunctionResponse, GeminiPart, GeminiPartCode, GeminiPrompt, GeminiPromptSystem,
    GeminiPromptUser, GeminiRequest, GeminiResponse, GeminiResponseStream, GeminiRole,
    GeminiToolDeclaration, GEMINI_BASE_URL,
};
use serde_json::Value;

fn json(text: &str) -> Value {
    serde_json::from_str(text).unwrap()
}

#[test]
fn test_gemini_set_base_url() {
    let mut gemini = Gemini::new("gemini-1.0-pro", "dummy_api_key");

    assert_eq!(gemini.base_url(), GEMINI_BASE_URL);

    let custom_url = "https://custom-api.example.com/v1/models";
    gemini.set_base_url(custom_url);
    assert_eq!(gemini.base_url(), custom_url);

    let another_url = "https://another-api.example.org/v2/models";
    let result = gemini.set_base_url(another_url);
    assert_eq!(result.base_url(), another_url);
}

#[test]
fn test_gemini_prompt_conversion_to_request() {
    let prompt = GeminiPrompt::new("Basic prompt");
    let request = GeminiRequest::from_prompt(&prompt);
    assert_eq!(request.contents.len(), 1);
    assert_eq!(request.contents[0].role_name(), None);

    if let GeminiPart::Text(part) = &request.contents[0].parts[0] {
        assert_eq!(part.text, "Basic prompt");
    } else {
        panic!("Expected GeminiPart::Text");
    }

    let system_prompt = GeminiPromptSystem::new("System instructions");
    let request = GeminiRequest::from_prompt(&system_prompt);
    assert_eq!(request.contents.len(), 1);
    assert_eq!(request.contents[0].role_name().map(String::from), Some("system".to_string()));

    let user_prompt = GeminiPromptUser::new("User question");
    let request = GeminiRequest::from_prompt(&user_prompt);
    assert_eq!(request.contents.len(), 1);
    assert_eq!(request.contents[0].role_name().map(String::from), Some("user".to_string()));
}

#[test]
fn test_gemini_request_new() {
    let request = GeminiRequest::new();
    assert!(request.contents.is_empty());
}

#[test]
fn test_gemini_request_from_prompt() {
    let prompt = GeminiPromptUser::new("Hello, Gemini!");
    let request = GeminiRequest::from_prompt(&prompt);
    assert_eq!(request.contents.len(), 1);
    assert_eq!(request.contents[0].role(), Some(GeminiRole::User));

    if let GeminiPart::Text(text_part) = &request.contents[0].parts[0] {
        assert_eq!(text_part.text, "Hello, Gemini!");
    } else {
        panic!("Expected text part");
    }
}

#[test]
fn test_gemini_request_from_str() {
    let request = GeminiRequest::from_str("Simple text prompt");
    assert_eq!(request.contents.len(), 1);

    if let GeminiPart::Text(text_part) = &request.contents[0].parts[0] {
        assert_eq!(text_part.text, "Simple text prompt");
    } else {
        panic!("Expected text part");
    }
}

#[test]
fn test_gemini_request_from_trait() {
    let request: GeminiRequest = "Convert me to a request".into();
    assert_eq!(request.contents.len(), 1);

    if let GeminiPart::Text(text_part) = &request.contents[0].parts[0] {
        assert_eq!(text_part.text, "Convert me to a request");
    } else {
        panic!("Expected text part");
    }

    let request = GeminiRequest::from("Another test");
    assert_eq!(request.contents.len(), 1);

    if let GeminiPart::Text(text_part) = &request.contents[0].parts[0] {
        assert_eq!(text_part.text, "Another test");
    } else {
        panic!("Expected text part");
    }

    let request: GeminiRequest = "Convert me to a request".to_string().into();
    assert_eq!(request.contents.len(), 1);

    if let GeminiPart::Text(text_part) = &request.contents[0].parts[0] {
        assert_eq!(text_part.text, "Convert me to a request");
    } else {
        panic!("Expected text part");
    }

    let request = GeminiRequest::from("Another test".to_string());
    assert_eq!(request.contents.len(), 1);

    if let GeminiPart::Text(text_part) = &request.contents[0].parts[0] {
        assert_eq!(text_part.text, "Another test");
    } else {
        panic!("Expected text part");
    }
}

#[test]
fn test_gemini_request_add_content() {
    let mut request = GeminiRequest::new();
    let mut content1 = GeminiContent::new();
    content1.set_role(GeminiRole::User).add_text("First message");

    let mut content2 = GeminiContent::new();
    content2.set_role(GeminiRole::System).add_text("Second message");

    request.add_content(content1).add_content(content2);

    assert_eq!(request.contents.len(), 2);
    assert_eq!(request.contents[0].role(), Some(GeminiRole::User));
    assert_eq!(request.contents[1].role(), Some(GeminiRole::System));
}

#[test]
fn test_gemini_request_add_prompt() {
    let mut request = GeminiRequest::new();
    request
        .add_prompt(&GeminiPromptSystem::new("You are a helpful assistant"))
        .add_prompt(&GeminiPromptUser::new("Tell me about Rust"));

    assert_eq!(request.contents.len(), 2);
    assert_eq!(request.contents[0].role(), Some(GeminiRole::System));
    assert_eq!(request.contents[1].role(), Some(GeminiRole::User));

    if let GeminiPart::Text(text_part) = &request.contents[0].parts[0] {
        assert_eq!(text_part.text, "You are a helpful assistant");
    } else {
        panic!("Expected text part");
    }

    if let GeminiPart::Text(text_part) = &request.contents[1].parts[0] {
        assert_eq!(text_part.text, "Tell me about Rust");
    } else {
        panic!("Expected text part");
    }
}

#[test]
fn test_gemini_request_add_response() {
    let mut request = GeminiRequest::new();
    let prompt = GeminiPromptUser::new("Initial prompt");
    request.add_prompt(&prompt);

    let mut response_content = GeminiContent::new();
    response_content.set_role(GeminiRole::System).add_text("Response text");

    let candidate =
        GeminiCandidate { content: response_content, finish_reason: None, index: Some(0) };

    let response = GeminiResponse { candidates: Some(vec![candidate]), error: None };

    request.add_response(&response);

    assert_eq!(request.contents.len(), 2);
    assert_eq!(request.contents[1].role(), Some(GeminiRole::System));

    if let GeminiPart::Text(text_part) = &request.contents[1].parts[0] {
        assert_eq!(text_part.text, "Response text");
    } else {
        panic!("Expected text part");
    }
}

fn shape(request: &GeminiRequest) -> Vec<(Option<String>, Vec<String>)> {
    request
        .contents
        .iter()
        .map(|content| {
            let parts = content
                .parts
                .iter()
                .map(|part| match part {
                    GeminiPart::Text(t) => format!("text:{}", t.text),
                    GeminiPart::Code(c) => {
                        format!("code:{}:{}", c.executable_code.language, c.executable_code.code)
                    }
                    GeminiPart::FunctionCall(c) => format!("call:{}:{}", c.name(), c.args()),
                    GeminiPart::FunctionResponse(r) => format!(
                        "response:{}:{}",
                        r.function_response.name, r.function_response.response
                    ),
                })
                .collect();
            (content.role_name().map(String::from), parts)
        })
        .collect()
}

#[test]
fn a_function_call_round_trip_makes_four_contents() {
    let mut request = GeminiRequest::from_prompt(&GeminiPromptUser::new("Weather in Paris?"));

    let asked = GeminiResponse::from_json(&json(
        r#"{"candidates": [{"content": {"role": "model", "parts": [
            {"functionCall": {"name": "get_weather", "args": {"city": "Paris"}}}]},
            "finishReason": "STOP", "index": 0}]}"#,
    ))
    .unwrap();
    assert_eq!(asked.text(), None);
    let calls = asked.functions();
    assert_eq!(calls.len(), 1);
    assert_eq!(calls[0].name(), "get_weather");
    assert_eq!(calls[0].args(), &json(r#"{"city": "Paris"}"#));
    request.add_response(&asked);

    request.add_function_response(GeminiFunctionResponse::new(
        "get_weather",
        json(r#"{"temp":"20C"}"#),
    ));

    let answered = GeminiResponse::from_json(&json(
        r#"{"candidates": [{"content": {"role": "model", "parts": [{"text": "20C in Paris."}]}}]}"#,
    ))
    .unwrap();
    assert_eq!(answered.text(), Some("20C in Paris."));
    assert!(answered.functions().is_empty());
    request.add_response(&answered);

    assert_eq!(
        shape(&request),
        vec![
            (Some("user".to_string()), vec!["text:Weather in Paris?".to_string()]),
            (
                Some("model".to_string()),
                vec![r#"call:get_weather:{"city":"Paris"}"#.to_string()]
            ),
            (
                Some("tool".to_string()),
                vec![r#"response:get_weather:{"result":{"temp":"20C"}}"#.to_string()]
            ),
            (Some("model".to_string()), vec!["text:20C in Paris.".to_string()]),
        ]
    );
    assert_eq!(request.contents[2].role(), Some(GeminiRole::Tool));
    assert_eq!(request.contents[1].role(), None);
}

#[test]
fn contents_round_trip() {
    let mut request = GeminiRequest::new();
    request.add_prompt(&GeminiPromptSystem::new("be brief"));
    request.add_prompt(&GeminiPrompt::new("no role"));
    let mut code = GeminiContent::new();
    code.set_role(GeminiRole::User).add_code("python", "print(1)").add_text("run it");
    request.add_content(code);
    let mut again = GeminiRequest::new();
    for content in &request.contents {
        again.add_content(content.clone());
    }
    assert_eq!(shape(&again), shape(&request));
    assert_eq!(shape(&request.clone()), shape(&request));
    assert_eq!(
        shape(&request)[2],
        (
            Some("user".to_string()),
            vec!["code:python:print(1)".to_string(), "text:run it".to_string()]
        )
    );
}

#[test]
fn a_response_without_a_candidate_adds_nothing() {
    let mut request = GeminiRequest::from_str("hi");
    request.add_response(&GeminiResponse { candidates: None, error: None });
    request.add_response(&GeminiResponse { candidates: Some(Vec::new()), error: None });
    assert_eq!(request.contents.len(), 1);
    let empty = GeminiResponse { candidates: Some(Vec::new()), error: Some(json("{}")) };
    assert!(empty.content().is_none());
    assert_eq!(empty.text(), None);
    assert!(empty.functions().is_empty());
}

#[test]
fn the_text_of_a_response_is_that_of_its_first_part() {
    let read = |text: &str| GeminiResponse::from_json(&json(text)).unwrap();
    let no_parts = read(r#"{"candidates": [{"content": {"parts": []}}]}"#);
    assert_eq!(no_parts.text(), None);
    assert!(no_parts.content().is_some());
    let call_first = read(
        r#"{"candidates": [{"content": {"parts": [
            {"functionCall": {"name": "f", "args": null}}, {"text": "t"},
            {"functionCall": {"name": "g", "args": 1}}]}}]}"#,
    );
    assert_eq!(call_first.text(), None);
    let names: Vec<&str> = call_first.functions().iter().map(|c| c.name()).collect();
    assert_eq!(names, vec!["f", "g"]);
    let second_candidate = read(
        r#"{"candidates": [{"content": {"parts": [{"text": "one"}]}},
                           {"content": {"parts": [{"text": "two"}]}}]}"#,
    );
    assert_eq!(second_candidate.text(), Some("one"));
}

#[test]
fn a_response_is_read_from_json() {
    let r = GeminiResponse::from_json(&json(
        r#"{"candidates": [{"index": 2, "finishReason": "STOP", "content": {"role": "model",
            "parts": [
                {"executable_code": {"language": "python", "code": "1+1"}},
                {"function_response": {"name": "f", "response": [1]}},
                {"text": "t", "functionCall": {"name": "both", "args": {}}},
                {"text": "plain", "thought": true}
            ]}}],
            "error": {"code": 429}, "usageMetadata": {}}"#,
    ))
    .unwrap();
    let candidates = r.candidates.as_ref().unwrap();
    assert_eq!(candidates.len(), 1);
    assert_eq!(candidates[0].index, Some(2));
    assert_eq!(candidates[0].finish_reason.as_deref(), Some("STOP"));
    assert_eq!(r.error, Some(json(r#"{"code": 429}"#)));
    let parts = &candidates[0].content.parts;
    assert_eq!(parts.len(), 4);
    assert!(matches!(&parts[0], GeminiPart::Code(c) if c.executable_code.language == "python"
        && c.executable_code.code == "1+1"));
    assert!(matches!(&parts[1], GeminiPart::FunctionResponse(f)
        if f.function_response.name == "f" && f.function_response.response == json("[1]")));
    assert!(matches!(&parts[2], GeminiPart::FunctionCall(c) if c.name() == "both"));
    assert!(matches!(&parts[3], GeminiPart::Text(t) if t.text == "plain"));

    let bare = GeminiResponse::from_json(&json(r#"{"candidates": null, "error": null}"#)).unwrap();
    assert!(bare.candidates.is_none());
    assert!(bare.error.is_none());
}

#[test]
fn a_response_that_does_not_fit_is_refused() {
    let refused = |text: &str| GeminiResponse::from_json(&json(text)).err();
    assert_eq!(refused("[]"), Some(NotAnObject));
    assert_eq!(refused(r#""text""#), Some(NotAnObject));
    assert_eq!(refused(r#"{"candidates": {}}"#), Some(InvalidField));
    assert_eq!(refused(r#"{"candidates": [{}]}"#), Some(InvalidField));
    assert_eq!(refused(r#"{"candidates": [{"content": {}}]}"#), Some(InvalidField));
    assert_eq!(refused(r#"{"candidates": [{"content": {"parts": [{}]}}]}"#), Some(InvalidField));
    assert_eq!(
        refused(r#"{"candidates": [{"content": {"parts": [{"text": 1}]}}]}"#),
        Some(InvalidField)
    );
    assert_eq!(
        refused(r#"{"candidates": [{"content": {"parts": [{"functionCall": {"name": "f"}}]}}]}"#),
        Some(InvalidField)
    );
    assert_eq!(
        refused(r#"{"candidates": [{"content": {"role": 1, "parts": []}}]}"#),
        Some(InvalidField)
    );
    assert_eq!(
        refused(r#"{"candidates": [{"index": -1, "content": {"parts": []}}]}"#),
        Some(InvalidField)
    );
    assert_eq!(
        refused(r#"{"candidates": [{"finishReason": 0, "content": {"parts": []}}]}"#),
        Some(InvalidField)
    );
    assert_eq!(
        refused(r#"{"candidates": [{"content": {"parts": [{"text": "ok"}]}}, 5]}"#),
        Some(InvalidField)
    );
}

#[test]
fn a_stream_of_events_collects_its_text() {
    let mut stream = GeminiResponseStream::new();
    assert_eq!(stream.text(), "");
    let first = stream
        .read(b"data: {\"candidates\": [{\"content\": {\"parts\": [{\"text\": \"The \"}]}}]}\r\n\r\n")
        .unwrap();
    assert_eq!(first.text(), Some("The "));
    assert!(stream.read(b": keep-alive\n\n").is_none());
    assert!(stream.read(b"{\"candidates\": []}").is_none());
    assert!(stream.read(b"data: {\"candidates\": 5}").is_none());
    assert!(stream.read(b"data: [1]").is_none());
    assert!(stream.read(b"").is_none());
    assert_eq!(stream.responses().len(), 1);
    assert!(stream.read(b"data: {\"error\": {\"code\": 500}}").is_some());
    stream
        .read(b"data: {\"candidates\": [{\"content\": {\"parts\": [{\"text\": \"sky is blue\"}]},\"finishReason\": \"STOP\"}]}")
        .unwrap();
    assert_eq!(stream.responses().len(), 3);
    assert_eq!(stream.text(), "The sky is blue");
    assert_eq!(stream.responses()[1].text(), None);
    assert_eq!(stream.responses()[2].text(), Some("sky is blue"));
}

#[test]
fn the_addresses_of_the_endpoints() {
    let mut gemini = Gemini::new("gemini-2.0-flash", "KEY");
    assert_eq!(gemini.model(), "gemini-2.0-flash");
    assert_eq!(
        gemini.generate_url(),
        "https://generativelanguage.googleapis.com/v1beta/models/gemini-2.0-flash:generateContent?key=KEY"
    );
    assert_eq!(
        gemini.stream_url(),
        "https://generativelanguage.googleapis.com/v1beta/models/gemini-2.0-flash:streamGenerateContent?alt=sse&key=KEY"
    );
    assert_eq!(
        gemini.models_url(),
        "https://generativelanguage.googleapis.com/v1beta/models?key=KEY"
    );
    gemini.set_base_url("http://localhost:9/m");
    assert_eq!(gemini.generate_url(), "http://localhost:9/m/gemini-2.0-flash:generateContent?key=KEY");
    assert_eq!(gemini.models_url(), "http://localhost:9/m?key=KEY");
}

#[test]
fn a_tool_keeps_the_schema_without_its_schema_member() {
    let mut tool = GeminiToolDeclaration::new();
    tool.add_function(GeminiFunctionDeclaration::new(
        "schedule_meeting",
        "Schedule a meeting with the given parameters.",
        json(r#"{"$schema": "http://json-schema.org/draft-07/schema#", "type": "object",
                 "properties": {"date": {"type": "string"}}}"#),
    ));
    tool.add_function(GeminiFunctionDeclaration::new("other", "no object", json(r#"["$schema"]"#)));
    let declared = tool.function_declarations();
    assert_eq!(declared.len(), 2);
    assert_eq!(declared[0].name, "schedule_meeting");
    assert_eq!(declared[0].description, "Schedule a meeting with the given parameters.");
    assert_eq!(
        declared[0].parameters,
        json(r#"{"type": "object", "properties": {"date": {"type": "string"}}}"#)
    );
    assert_eq!(declared[1].parameters, json(r#"["$schema"]"#));

    let mut request = GeminiRequest::from_str("plan");
    request.add_tool(tool.clone());
    assert_eq!(request.tools.len(), 1);
    assert_eq!(request.tools[0].function_declarations().len(), 2);
    assert_eq!(request.contents.len(), 1);
}

#[test]
fn parts_are_made_and_read() {
    let code = GeminiPartCode::new("rust", "fn main() {}");
    assert_eq!(code.executable_code.language, "rust");
    assert_eq!(code.executable_code.code, "fn main() {}");
    let call = GeminiFunctionCall::new("f", json("[1]"));
    assert_eq!(call.name(), "f");
    assert_eq!(call.args(), &json("[1]"));
    assert_eq!(call.clone().name(), "f");
    let response = GeminiFunctionResponse::new("f", json("7"));
    assert_eq!(response.function_response.name, "f");
    assert_eq!(response.function_response.response, json(r#"{"result": 7}"#));
    let mut content = GeminiContent::new();
    assert_eq!(content.role(), None);
    assert!(content.parts().is_empty());
    content.add_part(GeminiPart::FunctionCall(call)).add_part(GeminiPart::Code(code));
    assert_eq!(content.parts.len(), 2);
    assert_eq!(content.role_name(), None);
    let custom = GeminiContent::from_parts(Some("SYSTEM".to_string()), Vec::new());
    assert_eq!(custom.role(), Some(GeminiRole::System));
    assert_eq!(custom.role_name(), Some("SYSTEM"));
    assert_eq!(GeminiContent::from_parts(Some("model".to_string()), Vec::new()).role(), None);
}

#[test]
fn test_gemini_request_to_json() {
    let mut request = GeminiRequest::new();
    let mut content = GeminiContent::new();
    content.set_role(GeminiRole::User).add_text("Convert this to JSON");
    request.add_content(content);

    let json = request.to_json();
    assert!(json.is_object());

    let contents = json.as_object().unwrap().get("contents").unwrap().as_array().unwrap();
    assert_eq!(contents.len(), 1);
}

#[test]
fn test_gemini_request_to_string_pretty() {
    let request = GeminiRequest::from_prompt(&GeminiPromptUser::new("Hello"));
    let json_str = request.to_string_pretty();

    assert!(serde_json::from_str::<Value>(&json_str).is_ok());
    assert!(json_str.contains("contents"));
    assert!(json_str.contains("Hello"));
}

#[test]
fn the_wire_form_of_a_request() {
    assert_eq!(GeminiRequest::new().to_json(), json("{}"));
    let mut request = GeminiRequest::from_prompt(&GeminiPromptUser::new("Weather?"));
    let mut reply = GeminiContent::from_parts(Some("model".to_string()), Vec::new());
    reply
        .add_part(GeminiPart::FunctionCall(GeminiFunctionCall::new("w", json(r#"{"c": "P"}"#))))
        .add_code("python", "1+1")
        .add_text("t");
    request.add_content(reply);
    request.add_function_response(GeminiFunctionResponse::new("w", json("20")));
    request.add_content(GeminiContent::new());
    let mut tool = GeminiToolDeclaration::new();
    tool.add_function(GeminiFunctionDeclaration::new("w", "weather", json(r#"{"type": "object"}"#)));
    request.add_tool(tool);
    request.add_tool(GeminiToolDeclaration::new());
    assert_eq!(
        request.to_json(),
        json(
            r#"{
                "contents": [
                    {"role": "user", "parts": [{"text": "Weather?"}]},
                    {"role": "model", "parts": [
                        {"functionCall": {"name": "w", "args": {"c": "P"}}},
                        {"executable_code": {"language": "python", "code": "1+1"}},
                        {"text": "t"}]},
                    {"role": "tool", "parts": [
                        {"function_response": {"name": "w", "response": {"result": 20}}}]},
                    {"parts": []}
                ],
                "tools": [
                    {"functionDeclarations": [
                        {"name": "w", "description": "weather", "parameters": {"type": "object"}}]},
                    {}
                ]
            }"#
        )
    );
    assert_eq!(
        serde_json::from_str::<Value>(&request.to_string_pretty()).unwrap(),
        request.to_json()
    );
}

#[test]
fn a_content_reads_back_from_its_json() {
    let mut content = GeminiContent::new();
    content
        .set_role(GeminiRole::Tool)
        .add_text("a")
        .add_code("rust", "fn f() {}")
        .add_part(GeminiPart::FunctionCall(GeminiFunctionCall::new("f", Value::Null)))
        .add_part(GeminiPart::FunctionResponse(GeminiFunctionResponse::new("f", json("[]"))));
    let wire = content.to_json();
    let read = ollie_rs::gemini::gemini_response::read_content(&wire).unwrap();
    assert_eq!(read.to_json(), wire);
    assert_eq!(read.role(), Some(GeminiRole::Tool));
    assert_eq!(read.parts.len(), 4);
    assert!(matches!(&read.parts[2], GeminiPart::FunctionCall(c) if c.args().is_null()));
}

fn meeting_schema() -> Value {
    json(
        r#"{
            "$schema": "http://json-schema.org/draft-07/schema#",
            "title": "ScheduleMeetingParameters",
            "type": "object",
            "required": ["attendees", "date", "time", "topic"],
            "properties": {
                "attendees": {
                    "description": "The list of people attending the meeting.",
                    "type": "array",
                    "items": {"type": "string"}
                },
                "date": {"description": "The date of the meeting (e.g., '2023-10-01').", "type": "string"},
                "time": {"description": "The time of the meeting (e.g., '14:00').", "type": "string"},
                "topic": {"description": "The topic of the meeting.", "type": "string"}
            }
        }"#,
    )
}

#[test]
fn test_gemini_function_declaration() {
    let function_declaration = GeminiFunctionDeclaration {
        name: "schedule_meeting".to_string(),
        description: "Schedule a meeting with the given parameters.".to_string(),
        parameters: meeting_schema(),
    };

    let pretty = serde_json::to_string_pretty(&function_declaration.to_json()).unwrap();
    println!("{}", pretty);
    assert_eq!(function_declaration.to_json()["parameters"], meeting_schema());
}

#[test]
fn test_gemini_tool_declaration() {
    let function_declaration = GeminiFunctionDeclaration {
        name: "schedule_meeting".to_string(),
        description: "Schedule a meeting with the given parameters.".to_string(),
        parameters: meeting_schema(),
    };

    let mut tool_declaration = GeminiToolDeclaration::new();
    tool_declaration.add_function(function_declaration);

    let pretty = serde_json::to_string_pretty(&tool_declaration.to_json()).unwrap();
    println!("{}", pretty);
    assert_eq!(
        tool_declaration.to_json()["functionDeclarations"][0]["name"],
        "schedule_meeting"
    );
    assert!(tool_declaration.to_json()["functionDeclarations"][0]["parameters"]
        .get("$schema")
        .is_none());
}

#[test]
fn a_gemini_response_reads_back_from_its_json() {
    let text = r#"{"candidates": [
        {"index": 0, "finishReason": "STOP", "content": {"role": "model", "parts": [
            {"text": "a"}, {"functionCall": {"name": "f", "args": [1]}}]}},
        {"content": {"parts": []}}],
        "error": {"code": 1}}"#;
    let response = GeminiResponse::from_json(&json(text)).unwrap();
    assert_eq!(response.to_json(), json(text));
    assert_eq!(
        serde_json::from_str::<Value>(&response.to_string_pretty()).unwrap(),
        json(text)
    );
    let again = GeminiResponse::from_json(&response.to_json()).unwrap();
    assert_eq!(again.to_json(), json(text));
    assert_eq!(again.clone().to_json(), json(text));
    assert_eq!(GeminiResponse { candidates: None, error: None }.to_json(), json("{}"));
    assert_eq!(
        GeminiResponse { candidates: Some(Vec::new()), error: None }.to_json(),
        json(r#"{"candidates": []}"#)
    );
    let candidate = GeminiCandidate {
        index: Some(u32::MAX),
        content: GeminiContent::new(),
        finish_reason: None,
    };
    assert_eq!(candidate.to_json(), json(r#"{"index": 4294967295, "content": {"parts": []}}"#));
}
