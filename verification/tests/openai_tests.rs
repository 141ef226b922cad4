use voicetypr::ai::openai::{
    chat_completions_url, check_api_key, compat_retry, extract_enhanced_text,
    is_unsupported_temperature_value_error, is_unsupported_token_parameter_error,
    model_uses_max_completion_tokens, plan_openai_request, CompatRetry,
};
use voicetypr::ai::AIError;

#[test]
fn test_provider_creation() {
    assert!(check_api_key("", false).is_err());
    assert!(check_api_key("test_key_12345", false).is_ok());
    assert!(check_api_key("", true).is_ok());
}

#[test]
fn test_model_uses_max_completion_tokens() {
    assert!(model_uses_max_completion_tokens("gpt-5"));
    assert!(model_uses_max_completion_tokens("gpt-5-mini"));
    assert!(model_uses_max_completion_tokens("o1"));
    assert!(model_uses_max_completion_tokens("o1-mini"));
    assert!(model_uses_max_completion_tokens("o3-mini"));
    assert!(model_uses_max_completion_tokens("o4-mini"));

    assert!(!model_uses_max_completion_tokens("gpt-4o"));
    assert!(!model_uses_max_completion_tokens("gpt-4.1"));
}

#[test]
fn test_unsupported_token_parameter_error_detection() {
    let error = "Unsupported parameter: 'max_tokens' is not supported with this model. Use 'max_completion_tokens' instead.";
    assert!(is_unsupported_token_parameter_error(error, "max_tokens"));
    assert!(!is_unsupported_token_parameter_error(error, "max_completion_tokens"));
}

#[test]
fn test_unsupported_temperature_value_error_detection() {
    let error = "Unsupported value: 'temperature' does not support 0 with this model. Only the default (1) value is supported.";
    assert!(is_unsupported_temperature_value_error(error));
    assert!(!is_unsupported_temperature_value_error(
        "Unsupported parameter: 'max_tokens'"
    ));
}

#[test]
fn model_check_trims_and_ignores_case() {
    assert!(model_uses_max_completion_tokens("  GPT-5-nano "));
    assert!(!model_uses_max_completion_tokens("xo1"));
}

#[test]
fn chat_url_drops_trailing_slashes() {
    assert_eq!(chat_completions_url(None), "https://api.openai.com/v1/chat/completions");
    assert_eq!(chat_completions_url(Some("http://h:1/v1//")), "http://h:1/v1/chat/completions");
    assert_eq!(chat_completions_url(Some("")), "/chat/completions");
}

#[test]
fn request_plan_and_compat_retries() {
    let plan = plan_openai_request("gpt-4o", Some(100));
    assert!(plan.has_temperature);
    assert_eq!(plan.max_tokens, Some(100));
    assert_eq!(plan.max_completion_tokens, None);
    assert!(plan.reasoning_effort.is_none());

    let mut plan = plan_openai_request("gpt-5-mini", Some(50));
    assert!(!plan.has_temperature);
    assert_eq!(plan.max_completion_tokens, Some(50));
    assert_eq!(plan.reasoning_effort.as_deref(), Some("minimal"));

    let r = compat_retry(&mut plan, "Unsupported parameter: 'max_completion_tokens'", true);
    assert_eq!(r, CompatRetry::SwapTokenParameter);
    assert_eq!(plan.max_tokens, Some(50));
    assert_eq!(plan.max_completion_tokens, None);

    let mut plan = plan_openai_request("gpt-4o", None);
    let r = compat_retry(
        &mut plan,
        "Unsupported value: 'temperature' ... Only the default (1) value is supported.",
        false,
    );
    assert_eq!(r, CompatRetry::DropTemperature);
    assert!(!plan.has_temperature);
    let r = compat_retry(&mut plan, "something else", false);
    assert_eq!(r, CompatRetry::GiveUp);
}

#[test]
fn extracting_the_reply_text() {
    assert!(matches!(extract_enhanced_text(None), Err(AIError::InvalidResponse(m)) if m == "No choices in response"));
    assert!(matches!(extract_enhanced_text(Some("  \n")), Err(AIError::InvalidResponse(m)) if m == "Empty response from API"));
    assert_eq!(extract_enhanced_text(Some("  ok ")).unwrap(), "ok");
}
