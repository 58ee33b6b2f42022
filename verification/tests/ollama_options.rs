use ollie_rs::{DecodeError, OllamaOptions, OllamaOptions2};
use serde_json::Value;

fn json(text: &str) -> Value {
    serde_json::from_str(text).unwrap()
}

fn number(temperature: f32) -> Value {
    Value::from(temperature)
}

fn temperature_of(options: &OllamaOptions2) -> Option<f32> {
    options.temperature().and_then(|t| t.as_f64()).map(|t| t as f32)
}

#[test]
fn ollama_options_test_new() {
    let options = OllamaOptions2::new();
    assert!(options.num_ctx().is_none());
    assert!(options.num_gpu().is_none());
    assert!(options.num_predict().is_none());
    assert!(options.temperature().is_none());
}

#[test]
fn test_accessors() {
    let options = OllamaOptions2::new()
        .set_num_ctx(2048)
        .set_num_gpu(1)
        .set_num_predict(100)
        .set_temperature(number(0.7));

    assert_eq!(options.num_ctx(), Some(2048));
    assert_eq!(options.num_gpu(), Some(1));
    assert_eq!(options.num_predict(), Some(100));
    assert_eq!(temperature_of(&options), Some(0.7));
}

#[test]
fn ollama_options_test_from_json_valid() {
    let json_data =
        json(r#"{"num_ctx": 4096, "num_gpu": 2, "num_predict": 256, "temperature": 0.8}"#);
    let options_result = OllamaOptions2::from_json(&json_data);
    assert!(options_result.is_ok());
    let options = options_result.unwrap();
    assert_eq!(options.num_ctx(), Some(4096));
    assert_eq!(options.num_gpu(), Some(2));
    assert_eq!(options.num_predict(), Some(256));
    assert_eq!(temperature_of(&options), Some(0.8));
}

#[test]
fn ollama_options_test_from_json_invalid_type() {
    let json_data = json(r#"{"num_ctx": "invalid", "temperature": 0.8}"#);
    let options_result = OllamaOptions2::from_json(&json_data);
    assert!(options_result.is_err());
}

#[test]
fn ollama_options_test_from_json_partial() {
    let json_data = json(r#"{"num_ctx": 4096, "temperature": 0.8}"#);

    let options_result = OllamaOptions2::from_json(&json_data);
    assert!(options_result.is_ok());

    let options = options_result.unwrap();
    assert_eq!(options.num_ctx(), Some(4096));
    assert_eq!(temperature_of(&options), Some(0.8));
    assert_eq!(options.num_gpu(), None);
    assert_eq!(options.num_predict(), None);
}

#[test]
fn ollama_options_test_to_json() {
    let options = OllamaOptions2::new().set_num_ctx(2048).set_temperature(number(0.7));

    let json_val = options.to_json();

    let json_num_ctx = json_val["num_ctx"].as_i64().unwrap() as i32;
    let json_temp = json_val["temperature"].as_f64().unwrap() as f32;

    assert_eq!(json_num_ctx, 2048);
    assert!((json_temp - 0.7).abs() < f32::EPSILON);

    assert_eq!(json_val.as_object().unwrap().len(), 2);
    assert!(json_val.get("num_gpu").is_none());
    assert!(json_val.get("num_predict").is_none());
}

#[test]
fn ollama_options_test_to_json_empty() {
    let options = OllamaOptions2::new();
    let json_val = options.to_json();
    let expected_json = json("{}");
    assert_eq!(json_val, expected_json);
}

#[test]
fn test_option_to_json_empty() {
    let options = OllamaOptions::new();
    let json = options.to_json();
    println!("{:?}", json);

    assert!(json.is_object());
    assert!(json.get("num_ctx").is_none());
    assert!(json.get("temperature").is_none());
    assert!(json.get("seed").is_none());
}

#[test]
fn test_option_to_json_with_values() {
    let mut options = OllamaOptions::new();
    options.set_num_ctx(4096).set_temperature(number(0.75)).set_seed(42);
    let json = options.to_json();
    println!("{:?}", json);

    assert!(json.is_object());
    assert_eq!(json["num_ctx"], 4096);
    assert_eq!(json["temperature"], 0.75);
    assert_eq!(json["seed"], 42);
}

#[test]
fn options_setters_leave_the_other_options() {
    let mut options = OllamaOptions::new();
    assert_eq!(options.num_ctx(), None);
    assert_eq!(options.seed(), None);
    assert_eq!(options.temperature(), None);
    options.set_num_ctx(4096).set_temperature(number(0.75)).set_seed(42);
    assert_eq!(options.num_ctx(), Some(4096));
    assert_eq!(options.temperature(), Some(&json("0.75")));
    assert_eq!(options.seed(), Some(42));
    options.set_seed(7);
    assert_eq!(options.num_ctx(), Some(4096));
    assert_eq!(options.seed(), Some(7));
    assert_eq!(options.clone().to_json(), options.to_json());
}

#[test]
fn a_temperature_is_a_number() {
    let mut options = OllamaOptions::new();
    options.set_temperature(json(r#""hot""#));
    assert_eq!(options.temperature(), None);
    options.set_temperature(json("1"));
    assert_eq!(options.temperature(), Some(&json("1")));
    options.set_temperature(Value::Null).set_temperature(json("[0.5]"));
    assert_eq!(options.temperature(), Some(&json("1")));
    options.set_temperature(number(f32::NAN));
    assert_eq!(options.temperature(), Some(&json("1")));
    let model = OllamaOptions2::new().set_temperature(json("true")).set_num_gpu(2);
    assert_eq!(model.temperature(), None);
    assert_eq!(model.set_temperature(json("-2.5e3")).temperature(), Some(&json("-2500.0")));
}

#[test]
fn model_options_are_set_one_after_the_other() {
    let a = OllamaOptions2::new().set_num_gpu(-1);
    let b = a.clone().set_num_ctx(8);
    assert_eq!(a.num_ctx(), None);
    assert_eq!(b.num_ctx(), Some(8));
    assert_eq!(b.num_gpu(), Some(-1));
    assert_eq!(b.set_num_predict(3).num_predict(), Some(3));
}

#[test]
fn options_read_back_from_their_json() {
    let text = r#"{"num_ctx": 4294967295, "temperature": 0.25, "seed": 0}"#;
    let options = OllamaOptions::from_json(&json(text)).unwrap();
    assert_eq!(options.to_json(), json(text));
    assert_eq!(options.num_ctx(), Some(u32::MAX));
    let text = r#"{"num_ctx": -2147483648, "num_gpu": 2147483647, "num_predict": -1, "temperature": 2}"#;
    let model = OllamaOptions2::from_json(&json(text)).unwrap();
    assert_eq!(model.num_ctx(), Some(i32::MIN));
    assert_eq!(model.num_gpu(), Some(i32::MAX));
    assert_eq!(model.to_json(), json(text));
}

#[test]
fn options_that_do_not_fit_are_refused() {
    let refused = |text: &str| OllamaOptions::from_json(&json(text)).err();
    assert_eq!(refused("[]"), Some(DecodeError::NotAnObject));
    assert_eq!(refused(r#"{"num_ctx": -1}"#), Some(DecodeError::InvalidField));
    assert_eq!(refused(r#"{"num_ctx": 4294967296}"#), Some(DecodeError::InvalidField));
    assert_eq!(refused(r#"{"seed": 1.0}"#), Some(DecodeError::InvalidField));
    assert_eq!(refused(r#"{"temperature": "0.5"}"#), Some(DecodeError::InvalidField));
    assert!(OllamaOptions::from_json(&json(r#"{"temperature": null, "x": 1}"#)).is_ok());
    let refused = |text: &str| OllamaOptions2::from_json(&json(text)).err();
    assert_eq!(refused("7"), Some(DecodeError::NotAnObject));
    assert_eq!(refused(r#"{"num_gpu": 2147483648}"#), Some(DecodeError::InvalidField));
    assert_eq!(refused(r#"{"num_predict": -2147483649}"#), Some(DecodeError::InvalidField));
    assert_eq!(refused(r#"{"num_ctx": 1.5}"#), Some(DecodeError::InvalidField));
    assert_eq!(refused(r#"{"temperature": false}"#), Some(DecodeError::InvalidField));
}
