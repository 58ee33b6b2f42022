use ollie_rs::{
    OllamaFunction, OllamaFunctionParameters, OllamaToolCall, OllamaToolCalls, OllamaTools,
};
use serde_json::Value;

fn json(text: &str) -> Value {
    serde_json::from_str(text).unwrap()
}

#[test]
fn test_tool_calls() {
    let mut tool_calls = OllamaToolCalls::new();

    assert_eq!(tool_calls.len(), 0);
    assert!(tool_calls.is_empty());

    let weather_call = OllamaToolCall::from(&json(
        r#"{"function": {"arguments": {"location": "Tokyo"}, "name": "get_current_weather"}}"#,
    ));

    let translate_call = OllamaToolCall::from(&json(
        r#"{"function": {"arguments": {"text": "Hello world", "target_language": "Japanese"},
            "name": "translate_text"}}"#,
    ));

    tool_calls.push_tool_call(weather_call).push_tool_call(translate_call);

    assert_eq!(tool_calls.len(), 2);
    assert!(!tool_calls.is_empty());

    let call0 = tool_calls.tool_call(0);
    assert!(call0.is_some());
    assert_eq!(call0.unwrap().name(), Some("get_current_weather"));

    let call1 = tool_calls.tool_call(1);
    assert!(call1.is_some());
    assert_eq!(call1.unwrap().name(), Some("translate_text"));

    let call_out_of_bounds = tool_calls.tool_call(2);
    assert!(call_out_of_bounds.is_none());

    let json_str = tool_calls.as_string_pretty();
    println!("---\ntool_calls: {}", json_str);

    assert!(json_str.contains("Tokyo"));
    assert!(json_str.contains("get_current_weather"));
    assert!(json_str.contains("Hello world"));
    assert!(json_str.contains("translate_text"));
}

#[test]
fn test_from_value_for_tool_calls() {
    let array_value = json(
        r#"[
            {"function": {"arguments": {"location": "New York"}, "name": "get_weather"}},
            {"function": {"arguments": {"query": "Best restaurants"}, "name": "search"}}
        ]"#,
    );

    let tool_calls_from_array = OllamaToolCalls::from(&array_value);

    assert_eq!(tool_calls_from_array.len(), 2);
    assert_eq!(tool_calls_from_array.tool_call(0).unwrap().name(), Some("get_weather"));
    assert_eq!(tool_calls_from_array.tool_call(1).unwrap().name(), Some("search"));

    let object_value =
        json(r#"{"function": {"arguments": {"message": "Hello world"}, "name": "echo"}}"#);

    let tool_calls_from_object = OllamaToolCalls::from(&object_value);

    assert_eq!(tool_calls_from_object.len(), 1);
    assert_eq!(tool_calls_from_object.tool_call(0).unwrap().name(), Some("echo"));

    let json_str = tool_calls_from_object.as_string_pretty();
    assert!(json_str.contains("echo"));
    assert!(json_str.contains("Hello world"));
}

#[test]
fn test_json_function_parameters() {
    let mut params = OllamaFunctionParameters::new();

    params
        .push_parameter("name", "string", "The name of the user", true)
        .push_parameter("email", "string", "The email address of the user", false);

    let object = params.to_json();

    if let serde_json::Value::Object(properties) = &object["properties"] {
        assert!(properties.contains_key("name"));
        assert!(properties.contains_key("email"));
    } else {
        panic!("Expected properties to be an object");
    }

    if let serde_json::Value::Array(required) = &object["required"] {
        assert_eq!(required.len(), 1);
        assert_eq!(required[0], "name");
        assert!(!required.contains(&json(r#""email""#)));
    } else {
        panic!("Expected required to be an array");
    }
}

#[test]
fn test_json_function() {
    let mut weather_function =
        OllamaFunction::new("get_current_weather", "Get the current weather in a given location");

    let mut params = OllamaFunctionParameters::new();
    params
        .push_parameter("location", "string", "The city and state, e.g., San Francisco, CA", true)
        .push_parameter(
            "format",
            "string",
            "The temperature unit to use: 'celsius' or 'fahrenheit'",
            false,
        );

    weather_function.set_parameters(params);

    let object = weather_function.to_json();

    if let serde_json::Value::Object(obj) = &object {
        assert_eq!(obj["type"], "function");

        if let serde_json::Value::Object(function) = &obj["function"] {
            assert_eq!(function["name"], "get_current_weather");
            assert_eq!(function["description"], "Get the current weather in a given location");

            if let serde_json::Value::Object(params) = &function["parameters"] {
                if let serde_json::Value::Object(properties) = &params["properties"] {
                    assert!(properties.contains_key("location"));
                    assert!(properties.contains_key("format"));

                    assert_eq!(properties["location"]["type"], "string");
                    assert_eq!(
                        properties["location"]["description"],
                        "The city and state, e.g., San Francisco, CA"
                    );

                    assert_eq!(properties["format"]["type"], "string");
                    assert_eq!(
                        properties["format"]["description"],
                        "The temperature unit to use: 'celsius' or 'fahrenheit'"
                    );
                } else {
                    panic!("Expected properties to be an object");
                }

                if let serde_json::Value::Array(required) = &params["required"] {
                    assert_eq!(required.len(), 1);
                    assert_eq!(required[0], "location");
                    assert!(!required.contains(&json(r#""format""#)));
                } else {
                    panic!("Expected required to be an array");
                }
            } else {
                panic!("Expected parameters to be an object");
            }
        } else {
            panic!("Expected function to be an object");
        }
    } else {
        panic!("Expected object to be an object");
    }
}

#[test]
fn test_json_tools() {
    let mut tools = OllamaTools::new();

    let mut temp_function = OllamaFunction::new(
        "get_current_temperature",
        "Get the current temperature in a given location",
    );

    let mut temp_params = OllamaFunctionParameters::new();
    temp_params
        .push_parameter("location", "string", "The city and state, e.g., San Francisco, CA", true)
        .push_parameter("unit", "string", "The temperature unit: 'celsius' or 'fahrenheit'", false);

    temp_function.set_parameters(temp_params);

    let mut vis_function = OllamaFunction::new(
        "get_current_visibility",
        "Get the current visibility conditions in a given location",
    );

    let mut vis_params = OllamaFunctionParameters::new();
    vis_params
        .push_parameter("location", "string", "The city and state, e.g., San Francisco, CA", true)
        .push_parameter("format", "string", "The visibility format: 'miles' or 'kilometers'", false);

    vis_function.set_parameters(vis_params);

    tools.push_function(temp_function).push_function(vis_function);

    let array = tools.to_json();

    if let serde_json::Value::Array(functions) = &array {
        assert_eq!(functions.len(), 2);

        assert_eq!(functions[0]["type"], "function");
        assert_eq!(functions[1]["type"], "function");

        if let serde_json::Value::Object(function0) = &functions[0]["function"] {
            assert_eq!(function0["name"], "get_current_temperature");
            assert_eq!(
                function0["description"],
                "Get the current temperature in a given location"
            );

            if let serde_json::Value::Object(params) = &function0["parameters"] {
                assert!(params.contains_key("properties"));
                assert!(params.contains_key("required"));
            } else {
                panic!("Expected parameters to be an object in first function");
            }
        } else {
            panic!("Expected function to be an object in first function");
        }

        if let serde_json::Value::Object(function1) = &functions[1]["function"] {
            assert_eq!(function1["name"], "get_current_visibility");
            assert_eq!(
                function1["description"],
                "Get the current visibility conditions in a given location"
            );

            if let serde_json::Value::Object(params) = &function1["parameters"] {
                assert!(params.contains_key("properties"));
                assert!(params.contains_key("required"));
            } else {
                panic!("Expected parameters to be an object in second function");
            }
        } else {
            panic!("Expected function to be an object in second function");
        }
    } else {
        panic!("Expected tools to be an array");
    }
}

#[test]
fn the_wire_form_of_tools() {
    assert_eq!(OllamaTools::new().to_json(), json("[]"));
    assert_eq!(
        OllamaFunctionParameters::new().to_json(),
        json(r#"{"type": "object", "properties": {}, "required": []}"#)
    );
    assert_eq!(
        OllamaFunction::new("f", "does f").to_json(),
        json(r#"{"type": "function", "function": {"name": "f", "description": "does f"}}"#)
    );
    let mut params = OllamaFunctionParameters::new();
    params
        .push_parameter("b", "number", "second", true)
        .push_parameter("a", "string", "first", true)
        .push_parameter("b", "boolean", "third", true);
    let mut f = OllamaFunction::new("f", "does f");
    f.set_parameters(params);
    let mut tools = OllamaTools::new();
    tools.push_function(f).push_function(OllamaFunction::new("g", "does g"));
    assert_eq!(
        tools.to_json(),
        json(
            r#"[
                {"type": "function", "function": {"name": "f", "description": "does f",
                    "parameters": {"type": "object",
                        "properties": {
                            "a": {"type": "string", "description": "first"},
                            "b": {"type": "boolean", "description": "third"}},
                        "required": ["b", "a", "b"]}}},
                {"type": "function", "function": {"name": "g", "description": "does g"}}
            ]"#
        )
    );
    assert_eq!(tools.clone().to_json(), tools.to_json());
}

#[test]
fn push_parameter_replaces_a_parameter_of_the_same_name() {
    let mut params = OllamaFunctionParameters::new();
    params
        .push_parameter("a", "string", "first", false)
        .push_parameter("b", "number", "second", true)
        .push_parameter("a", "boolean", "third", true);
    let properties = params.properties();
    assert_eq!(properties.len(), 2);
    assert_eq!(properties[0].name, "a");
    assert_eq!(properties[0].json_type, "boolean");
    assert_eq!(properties[0].description, "third");
    assert_eq!(properties[1].name, "b");
    assert_eq!(params.required(), &vec!["b".to_string(), "a".to_string()]);
}

#[test]
fn tool_call_reads_name_and_arguments() {
    let call = OllamaToolCall::from(&json(r#"{"function": {"name": "f", "arguments": [1, 2]}}"#));
    assert_eq!(call.name(), Some("f"));
    assert_eq!(call.arguments(), Some(&json("[1, 2]")));
    assert_eq!(call.as_json(), &json(r#"{"function": {"name": "f", "arguments": [1, 2]}}"#));

    let nameless = OllamaToolCall::from(&json(r#"{"function": {"name": 5}}"#));
    assert_eq!(nameless.name(), None);
    assert_eq!(nameless.arguments(), None);

    let empty = OllamaToolCall::from(&json("3"));
    assert_eq!(empty.name(), None);
    assert_eq!(empty.arguments(), None);
    assert_eq!(empty.as_string_pretty(), "3");
}

#[test]
fn tool_calls_keep_their_order() {
    let mut calls = OllamaToolCalls::from(&json(r#"[{"n": 1}, {"n": 2}]"#));
    let more = OllamaToolCalls::from(&json(r#"[{"n": 3}]"#));
    calls.extend(&more);
    assert_eq!(calls.len(), 3);
    assert_eq!(calls.to_json(), json(r#"[{"n": 1}, {"n": 2}, {"n": 3}]"#));
    assert_eq!(calls.clone().to_json(), calls.to_json());
    assert_eq!(OllamaToolCalls::new().to_json(), json("[]"));
    assert_eq!(OllamaToolCalls::new().as_string_pretty(), "[]");
}
