use ollie_rs::{GeminiPrompt, GeminiPromptSystem, GeminiPromptTool, GeminiPromptUser, GeminiRole};

#[test]
fn test_gemini_prompt_new() {
    let prompt = GeminiPrompt::new("Test prompt text");
    assert_eq!(prompt.text, "Test prompt text");
    assert_eq!(prompt.role, None);
}

#[test]
fn test_gemini_prompt_user_new() {
    let prompt = GeminiPromptUser::new("User prompt");
    assert_eq!(prompt.text, "User prompt");
    assert_eq!(prompt.role, Some(GeminiRole::User));
}

#[test]
fn test_gemini_prompt_system_new() {
    let prompt = GeminiPromptSystem::new("System instructions");
    assert_eq!(prompt.text, "System instructions");
    assert_eq!(prompt.role, Some(GeminiRole::System));
}

#[test]
fn test_gemini_prompt_tool_new() {
    let prompt = GeminiPromptTool::new("Tool output");
    assert_eq!(prompt.text, "Tool output");
    assert_eq!(prompt.role, Some(GeminiRole::Tool));
}

#[test]
fn gemini_prompt_test_gemini_role_as_str() {
    assert_eq!(GeminiRole::System.as_str(), "system");
    assert_eq!(GeminiRole::User.as_str(), "user");
    assert_eq!(GeminiRole::Tool.as_str(), "tool");
}

#[test]
fn gemini_prompt_test_gemini_role_from_str() {
    assert_eq!(GeminiRole::from_str("system"), Some(GeminiRole::System));
    assert_eq!(GeminiRole::from_str("user"), Some(GeminiRole::User));
    assert_eq!(GeminiRole::from_str("tool"), Some(GeminiRole::Tool));
    assert_eq!(GeminiRole::from_str("SYSTEM"), Some(GeminiRole::System));
    assert_eq!(GeminiRole::from_str("USER"), Some(GeminiRole::User));
    assert_eq!(GeminiRole::from_str("TOOL"), Some(GeminiRole::Tool));
    assert_eq!(GeminiRole::from_str("unknown"), None);
}

#[test]
fn gemini_request_test_gemini_role_as_str() {
    assert_eq!(GeminiRole::System.as_str(), "system");
    assert_eq!(GeminiRole::User.as_str(), "user");
    assert_eq!(GeminiRole::Tool.as_str(), "tool");
}

#[test]
fn gemini_request_test_gemini_role_from_str() {
    assert_eq!(GeminiRole::from_str("system"), Some(GeminiRole::System));
    assert_eq!(GeminiRole::from_str("USER"), Some(GeminiRole::User));
    assert_eq!(GeminiRole::from_str("Tool"), Some(GeminiRole::Tool));
    assert_eq!(GeminiRole::from_str("unknown"), None);
}

#[test]
fn role_from_lowercase_is_exact() {
    assert_eq!(GeminiRole::from_lowercase("user"), Some(GeminiRole::User));
    assert_eq!(GeminiRole::from_lowercase("User"), None);
    assert_eq!(GeminiRole::from_lowercase("users"), None);
    assert_eq!(GeminiRole::from_lowercase(""), None);
}

#[test]
fn role_names_round_trip() {
    for role in [GeminiRole::System, GeminiRole::User, GeminiRole::Tool] {
        assert_eq!(GeminiRole::from_str(role.as_str()), Some(role));
    }
}
