use std::str::FromStr;
use voicetypr::ai::prompts::{
    build_base_prompt, build_enhancement_prompt, build_rephrase_prompt, get_language_name,
    language_name_for, EnhancementOptions, EnhancementPreset, RephraseStyle, BASE_PROMPT_HEAD,
    BASE_PROMPT_TAIL, CONCISE_STYLE, EMAIL_TRANSFORM, REPHRASE_HEAD, REPHRASE_MIDDLE,
};
use voicetypr::ai::{
    AIEnhancementRequest, AIError, AIProvider, AIProviderFactory, ProviderKind, MAX_TEXT_LENGTH,
};

#[test]
fn test_ai_error_display() {
    let err = AIError::ApiError("Test error".to_string());
    assert_eq!(err.to_string(), "API error: Test error");

    let err = AIError::ValidationError("Invalid input".to_string());
    assert_eq!(err.to_string(), "Validation error: Invalid input");

    let err = AIError::RateLimitExceeded;
    assert_eq!(err.to_string(), "Rate limit exceeded");
}

#[test]
fn test_ai_enhancement_request_validation() {
    // Empty text
    let request = AIEnhancementRequest {
        text: "".to_string(),
        context: None,
        options: None,
        language: None,
    };
    assert!(request.validate().is_err());

    // Whitespace only
    let request = AIEnhancementRequest {
        text: "   \n\t  ".to_string(),
        context: None,
        options: None,
        language: None,
    };
    assert!(request.validate().is_err());

    // Valid text
    let request = AIEnhancementRequest {
        text: "Hello, world!".to_string(),
        context: None,
        options: None,
        language: None,
    };
    assert!(request.validate().is_ok());

    // Text at max length
    let request = AIEnhancementRequest {
        text: "a".repeat(MAX_TEXT_LENGTH),
        context: None,
        options: None,
        language: None,
    };
    assert!(request.validate().is_ok());

    // Text exceeding max length
    let request = AIEnhancementRequest {
        text: "a".repeat(MAX_TEXT_LENGTH + 1),
        context: None,
        options: None,
        language: None,
    };
    assert!(request.validate().is_err());
}

#[test]
fn test_enhancement_prompt_generation() {

    // Test with default options (English)
    let options = EnhancementOptions::default();
    let prompt = build_enhancement_prompt("hello world", None, &options, None);

    assert!(prompt.contains("hello world"));
    assert!(prompt.contains("post-processor that converts raw voice transcripts"));
    assert!(prompt.contains("written English")); // Default language

    // Test with context
    let prompt_with_context =
        build_enhancement_prompt("hello world", Some("Casual conversation"), &options, None);

    assert!(prompt_with_context.contains("Context: Casual conversation"));

    // Test with Spanish language
    let prompt_spanish = build_enhancement_prompt("hola mundo", None, &options, Some("es"));
    assert!(prompt_spanish.contains("written Spanish"));

    // Test with French language
    let prompt_french = build_enhancement_prompt("bonjour monde", None, &options, Some("fr"));
    assert!(prompt_french.contains("written French"));
}

#[test]
fn test_enhancement_presets() {

    let text = "um hello world";

    // Test Default preset
    let default_options = EnhancementOptions::default();
    let default_prompt = build_enhancement_prompt(text, None, &default_options, None);
    assert!(default_prompt.contains("post-processor that converts raw voice transcripts"));

    // Test Prompts preset
    let mut prompts_options = EnhancementOptions::default();
    prompts_options.preset = EnhancementPreset::Prompts;
    let prompts_prompt = build_enhancement_prompt(text, None, &prompts_options, None);
    assert!(prompts_prompt.contains("transform the cleaned text into a concise AI prompt"));

    // Test Email preset
    let mut email_options = EnhancementOptions::default();
    email_options.preset = EnhancementPreset::Email;
    let email_prompt = build_enhancement_prompt(text, None, &email_options, None);
    assert!(email_prompt.contains("format the cleaned text as an email"));

    // Test Commit preset
    let mut commit_options = EnhancementOptions::default();
    commit_options.preset = EnhancementPreset::Commit;
    let commit_prompt = build_enhancement_prompt(text, None, &commit_options, None);
    assert!(commit_prompt.contains("convert the cleaned text to a Conventional Commit"));

    // Test Notes preset
    let mut notes_options = EnhancementOptions::default();
    notes_options.preset = EnhancementPreset::Notes;
    let notes_prompt = build_enhancement_prompt(text, None, &notes_options, None);
    assert!(notes_prompt.contains("restructure the cleaned text as organized notes"));

    // Test Technical preset
    let mut tech_options = EnhancementOptions::default();
    tech_options.preset = EnhancementPreset::Technical;
    let tech_prompt = build_enhancement_prompt(text, None, &tech_options, None);
    assert!(tech_prompt.contains("rewrite the cleaned text in professional technical style"));

    // Test Chat preset
    let mut chat_options = EnhancementOptions::default();
    chat_options.preset = EnhancementPreset::Chat;
    let chat_prompt = build_enhancement_prompt(text, None, &chat_options, None);
    assert!(chat_prompt.contains("rewrite the cleaned text as a casual chat message"));

    // Test Tweet preset
    let mut tweet_options = EnhancementOptions::default();
    tweet_options.preset = EnhancementPreset::Tweet;
    let tweet_prompt = build_enhancement_prompt(text, None, &tweet_options, None);
    assert!(tweet_prompt.contains("condense the cleaned text into a concise social media post"));
}

#[test]
fn test_self_correction_rules_in_all_presets() {

    let test_text = "send it to john... to mary";

    // Test that ALL presets include self-correction rules
    let presets = vec![
        EnhancementPreset::Default,
        EnhancementPreset::Prompts,
        EnhancementPreset::Email,
        EnhancementPreset::Commit,
        EnhancementPreset::Notes,
        EnhancementPreset::Technical,
        EnhancementPreset::Chat,
        EnhancementPreset::Tweet,
    ];

    for preset in presets {
        let mut options = EnhancementOptions::default();
        options.preset = preset.clone();
        let prompt = build_enhancement_prompt(test_text, None, &options, None);

        // All prompts should include self-correction rules
        assert!(
            prompt.contains("Self-Corrections"),
            "Preset {:?} should include self-correction rules",
            preset
        );
    }
}

#[test]
fn test_layered_architecture() {

    let test_text = "test";

    // Test that all presets include base processing
    let presets = vec![
        EnhancementPreset::Default,
        EnhancementPreset::Prompts,
        EnhancementPreset::Email,
        EnhancementPreset::Commit,
        EnhancementPreset::Notes,
        EnhancementPreset::Technical,
        EnhancementPreset::Chat,
        EnhancementPreset::Tweet,
    ];

    for preset in presets {
        let mut options = EnhancementOptions::default();
        options.preset = preset.clone();
        let prompt = build_enhancement_prompt(test_text, None, &options, None);

        // All should include self-correction rules
        assert!(
            prompt.contains("Self-Corrections"),
            "Preset {:?} should include self-correction rules",
            preset
        );

        // All should include base processing
        assert!(
            prompt.contains("post-processor"),
            "Preset {:?} should include base processing",
            preset
        );

        // Non-default presets should have transformation instruction
        if !matches!(preset, EnhancementPreset::Default) {
            assert!(
                prompt.contains("Now"),
                "Preset {:?} should have transformation",
                preset
            );
        }
    }
}

#[test]
fn test_default_prompt_comprehensive_features() {

    let test_text = "test transcription";
    let options = EnhancementOptions::default();
    let prompt = build_enhancement_prompt(test_text, None, &options, None);

    // Test that Default prompt includes all comprehensive features

    // 1. Self-correction handling
    assert!(
        prompt.contains("Self-Corrections"),
        "Should handle self-corrections"
    );
    assert!(
        prompt.contains("last-intent wins"),
        "Should use last-intent policy"
    );

    // 2. Error correction
    assert!(
        prompt.contains("grammar, punctuation, capitalization"),
        "Should handle grammar and spelling"
    );

    // 3. Intent extraction
    assert!(
        prompt.contains("Intent Extraction"),
        "Should include intent extraction"
    );

    // 4. Structural formatting
    assert!(
        prompt.contains("Structural Formatting"),
        "Should include structural formatting"
    );

    // 5. Technical terms
    assert!(
        prompt.contains("Normalize obvious names/brands/terms"),
        "Should normalize technical terms"
    );
}

#[test]
fn test_custom_instructions_appended() {

    let mut options = EnhancementOptions::default();
    options.custom_instructions = Some("Always use formal tone".to_string());

    let prompt = build_enhancement_prompt("hello world", None, &options, None);
    assert!(prompt.contains("Additional instructions: Always use formal tone"));
}

#[test]
fn test_custom_instructions_empty_not_appended() {

    let mut options = EnhancementOptions::default();
    options.custom_instructions = Some("   ".to_string());

    let prompt = build_enhancement_prompt("hello world", None, &options, None);
    assert!(!prompt.contains("Additional instructions"));
}

#[test]
fn test_custom_vocabulary_appended() {

    let mut options = EnhancementOptions::default();
    options.custom_vocabulary = vec!["VoiceTypr".to_string(), "Tauri".to_string()];

    let prompt = build_enhancement_prompt("hello world", None, &options, None);
    assert!(prompt.contains("Always use these exact terms/spellings: VoiceTypr, Tauri"));
}

#[test]
fn test_custom_vocabulary_empty_not_appended() {

    let options = EnhancementOptions::default();
    let prompt = build_enhancement_prompt("hello world", None, &options, None);
    assert!(!prompt.contains("Always use these exact terms"));
}

#[test]
fn test_vocabulary_before_instructions() {

    let mut options = EnhancementOptions::default();
    options.custom_vocabulary = vec!["VoiceTypr".to_string()];
    options.custom_instructions = Some("Use formal tone".to_string());

    let prompt = build_enhancement_prompt("hello world", None, &options, None);
    let vocab_pos = prompt.find("Always use these exact terms").unwrap();
    let instr_pos = prompt.find("Additional instructions").unwrap();
    assert!(vocab_pos < instr_pos, "Vocabulary should appear before instructions");
}

#[test]
fn test_language_name_mapping() {

    // Test common languages
    assert_eq!(get_language_name("en"), "English");
    assert_eq!(get_language_name("es"), "Spanish");
    assert_eq!(get_language_name("fr"), "French");
    assert_eq!(get_language_name("de"), "German");
    assert_eq!(get_language_name("ja"), "Japanese");
    assert_eq!(get_language_name("zh"), "Chinese");
    assert_eq!(get_language_name("ar"), "Arabic");
    assert_eq!(get_language_name("hi"), "Hindi");
    assert_eq!(get_language_name("pt"), "Portuguese");
    assert_eq!(get_language_name("ru"), "Russian");

    // Test case insensitivity
    assert_eq!(get_language_name("EN"), "English");
    assert_eq!(get_language_name("Es"), "Spanish");

    // Test fallback for unknown language codes
    assert_eq!(get_language_name("xyz"), "English");
    assert_eq!(get_language_name(""), "English");
}

#[test]
fn test_language_aware_prompts() {

    let options = EnhancementOptions::default();
    let text = "test text";

    // English (default)
    let prompt_en = build_enhancement_prompt(text, None, &options, Some("en"));
    assert!(prompt_en.contains("written English"));

    // Spanish
    let prompt_es = build_enhancement_prompt(text, None, &options, Some("es"));
    assert!(prompt_es.contains("written Spanish"));

    // Japanese
    let prompt_ja = build_enhancement_prompt(text, None, &options, Some("ja"));
    assert!(prompt_ja.contains("written Japanese"));

    // None defaults to English
    let prompt_none = build_enhancement_prompt(text, None, &options, None);
    assert!(prompt_none.contains("written English"));
}

// =========================================================================
// Rephrase prompt tests
// =========================================================================

#[test]
fn test_rephrase_prompt_contains_input_text() {

    let text = "Hello world, this is a test sentence.";
    let prompt = build_rephrase_prompt(text, &RephraseStyle::Professional, None, None);
    assert!(prompt.contains(text));
}

#[test]
fn test_rephrase_prompt_professional_style() {

    let prompt =
        build_rephrase_prompt("some text", &RephraseStyle::Professional, None, None);
    assert!(prompt.contains("professional"));
    assert!(prompt.contains("English")); // default language
}

#[test]
fn test_rephrase_prompt_concise_style() {

    let prompt = build_rephrase_prompt("some text", &RephraseStyle::Concise, None, None);
    assert!(prompt.contains("concise"));
}

#[test]
fn test_rephrase_prompt_friendly_style() {

    let prompt = build_rephrase_prompt("some text", &RephraseStyle::Friendly, None, None);
    assert!(prompt.contains("friendly") || prompt.contains("warm"));
}

#[test]
fn test_rephrase_prompt_fix_grammar_style() {

    let prompt = build_rephrase_prompt("some text", &RephraseStyle::FixGrammar, None, None);
    assert!(prompt.contains("grammar"));
}

#[test]
fn test_rephrase_prompt_elaborate_style() {

    let prompt = build_rephrase_prompt("some text", &RephraseStyle::Elaborate, None, None);
    assert!(prompt.contains("Expand") || prompt.contains("elaborate"));
}

#[test]
fn test_rephrase_prompt_language_aware() {

    let prompt_es =
        build_rephrase_prompt("hola mundo", &RephraseStyle::Professional, None, Some("es"));
    assert!(prompt_es.contains("Spanish"));

    let prompt_fr =
        build_rephrase_prompt("bonjour", &RephraseStyle::Professional, None, Some("fr"));
    assert!(prompt_fr.contains("French"));

    // None falls back to English
    let prompt_default =
        build_rephrase_prompt("hello", &RephraseStyle::Professional, None, None);
    assert!(prompt_default.contains("English"));
}

#[test]
fn test_rephrase_prompt_custom_instructions_appended() {

    let prompt = build_rephrase_prompt(
        "some text",
        &RephraseStyle::Professional,
        Some("Always use bullet points"),
        None,
    );
    assert!(prompt.contains("Additional instructions: Always use bullet points"));
}

#[test]
fn test_rephrase_prompt_empty_custom_instructions_not_appended() {

    let prompt = build_rephrase_prompt(
        "some text",
        &RephraseStyle::Professional,
        Some("   "),
        None,
    );
    assert!(!prompt.contains("Additional instructions"));
}

#[test]
fn test_rephrase_prompt_does_not_contain_voice_instructions() {

    // Rephrase prompts should NOT include voice-transcript-specific language
    let prompt =
        build_rephrase_prompt("some text", &RephraseStyle::Professional, None, None);
    assert!(!prompt.contains("voice transcript"));
    assert!(!prompt.contains("fillers"));
    assert!(!prompt.contains("Self-Corrections"));
}

#[test]
fn test_rephrase_style_from_str() {

    assert_eq!(
        RephraseStyle::from_str("Professional").unwrap(),
        RephraseStyle::Professional
    );
    assert_eq!(
        RephraseStyle::from_str("Concise").unwrap(),
        RephraseStyle::Concise
    );
    assert_eq!(
        RephraseStyle::from_str("Friendly").unwrap(),
        RephraseStyle::Friendly
    );
    assert_eq!(
        RephraseStyle::from_str("FixGrammar").unwrap(),
        RephraseStyle::FixGrammar
    );
    assert_eq!(
        RephraseStyle::from_str("Elaborate").unwrap(),
        RephraseStyle::Elaborate
    );
    assert!(RephraseStyle::from_str("InvalidStyle").is_err());
}

#[test]
fn test_rephrase_style_display() {

    assert_eq!(RephraseStyle::Professional.to_string(), "Professional");
    assert_eq!(RephraseStyle::Concise.to_string(), "Concise");
    assert_eq!(RephraseStyle::Friendly.to_string(), "Friendly");
    assert_eq!(RephraseStyle::FixGrammar.to_string(), "FixGrammar");
    assert_eq!(RephraseStyle::Elaborate.to_string(), "Elaborate");
}

#[test]
fn test_ai_provider_factory_validation() {

    let result = AIProviderFactory::select_provider("invalid_provider");
    assert!(result.is_err());

    if let Err(err) = result {
        match err {
            AIError::ProviderNotFound(provider) => {
                assert_eq!(provider, "invalid_provider");
            }
            _ => panic!("Expected ProviderNotFound error"),
        }
    }
}

#[test]
fn factory_selects_known_providers() {
    assert!(matches!(AIProviderFactory::select_provider("openai"), Ok(ProviderKind::OpenAI)));
    assert!(matches!(AIProviderFactory::select_provider("gemini"), Ok(ProviderKind::Gemini)));
    assert!(AIProviderFactory::is_valid_provider("openai"));
    assert!(!AIProviderFactory::is_valid_provider("OpenAI"));
}

#[test]
fn validation_error_message_names_the_limit() {
    let request = AIEnhancementRequest {
        text: "a".repeat(MAX_TEXT_LENGTH + 1),
        context: None,
        options: None,
        language: None,
    };
    match request.validate() {
        Err(e) => assert_eq!(
            e.to_string(),
            "Validation error: Text exceeds maximum length of 10000 characters"
        ),
        Ok(_) => panic!("expected an error"),
    }
}

#[test]
fn validation_counts_bytes_not_characters() {
    // 5000 two-byte characters are 10000 bytes: at the limit.
    let ok = AIEnhancementRequest {
        text: "\u{e9}".repeat(5000),
        context: None,
        options: None,
        language: None,
    };
    assert!(ok.validate().is_ok());
    let too_long = AIEnhancementRequest {
        text: "\u{e9}".repeat(5001),
        context: None,
        options: None,
        language: None,
    };
    assert!(too_long.validate().is_err());
}

#[test]
fn language_names_ignore_unicode_case() {
    assert_eq!(get_language_name("DE"), "German");
    assert_eq!(get_language_name("Zh"), "Chinese");
    assert_eq!(language_name_for("ko"), "Korean");
    assert_eq!(language_name_for("KO"), "English");
    // KELVIN SIGN lower-cases to an ASCII 'k'.
    assert_eq!(get_language_name("\u{212A}o"), "Korean");
}

#[test]
fn enhancement_prompt_exact_layout() {
    let mut options = EnhancementOptions::default();
    options.preset = EnhancementPreset::Email;
    options.custom_vocabulary = vec!["A".to_string(), "B".to_string()];
    options.custom_instructions = Some("  be brief  ".to_string());
    let prompt = build_enhancement_prompt("  hi  ", Some("ctx"), &options, Some("fr"));
    let expected = format!(
        "{}French{}\n\n{}\n\nTranscribed text:\nhi\n\nContext: ctx\n\nAlways use these exact terms/spellings: A, B\n\nAdditional instructions: be brief",
        BASE_PROMPT_HEAD, BASE_PROMPT_TAIL, EMAIL_TRANSFORM
    );
    assert_eq!(prompt, expected);
    assert_eq!(build_base_prompt(None), format!("{}English{}", BASE_PROMPT_HEAD, BASE_PROMPT_TAIL));
}

#[test]
fn rephrase_prompt_exact_layout() {
    let prompt = build_rephrase_prompt(" text ", &RephraseStyle::Concise, Some(" x "), Some("es"));
    let expected = format!(
        "{}Spanish{}{}\n\nText to rephrase:\ntext\n\nAdditional instructions: x",
        REPHRASE_HEAD, REPHRASE_MIDDLE, CONCISE_STYLE
    );
    assert_eq!(prompt, expected);
    assert!(prompt.contains("\nOutput language: Spanish.\nReturn ONLY the rephrased text \u{2014} no explanations"));
    assert_eq!(
        RephraseStyle::from_str("nope").unwrap_err(),
        "Unknown rephrase style: nope"
    );
    assert_eq!(RephraseStyle::default(), RephraseStyle::Professional);
}

#[test]
fn ai_error_messages_for_every_variant() {
    assert_eq!(AIError::NetworkError("x".into()).to_string(), "Network error: x");
    assert_eq!(AIError::InvalidResponse("x".into()).to_string(), "Invalid response: x");
    assert_eq!(AIError::ProviderNotFound("x".into()).to_string(), "Provider not found: x");
}

#[test]
fn provider_kinds_are_named_as_configured() {
    assert_eq!(ProviderKind::Gemini.name(), "gemini");
    assert_eq!(ProviderKind::OpenAI.name(), "openai");
    let kind = AIProviderFactory::select_provider("openai").unwrap();
    assert_eq!(kind.name(), "openai");
}
