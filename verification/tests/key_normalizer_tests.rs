use voicetypr::commands::key_normalizer::{
    is_valid_key, normalize_shortcut_keys, normalize_single_key, validate_key_combination,
    validate_key_combination_with_rules, KeyValidationRules,
};

#[test]
fn test_normalize_shortcut_keys() {
    // Test default shortcut remains unchanged
    assert_eq!(
        normalize_shortcut_keys("CommandOrControl+Shift+Space"),
        "CommandOrControl+Shift+Space"
    );

    assert_eq!(normalize_shortcut_keys("Return"), "Enter");
    assert_eq!(normalize_shortcut_keys("ArrowUp"), "Up");
    assert_eq!(
        normalize_shortcut_keys("CommandOrControl+ArrowDown"),
        "CommandOrControl+Down"
    );
    assert_eq!(normalize_shortcut_keys("Shift+Return"), "Shift+Enter");
    assert_eq!(
        normalize_shortcut_keys("Cmd+Shift+Space"),
        "CommandOrControl+Shift+Space"
    );
    assert_eq!(normalize_shortcut_keys("Space"), "Space");
    assert_eq!(normalize_shortcut_keys("F1"), "F1");

    // Test case-insensitive normalization
    assert_eq!(
        normalize_shortcut_keys("cmd+shift+space"),
        "CommandOrControl+Shift+Space"
    );
    assert_eq!(
        normalize_shortcut_keys("ctrl+shift+space"),
        "CommandOrControl+Shift+Space"
    );
    assert_eq!(
        normalize_shortcut_keys("CMD+SHIFT+SPACE"),
        "CommandOrControl+Shift+Space"
    );
    assert_eq!(normalize_shortcut_keys("alt+a"), "Alt+a");
    assert_eq!(normalize_shortcut_keys("SHIFT+F1"), "Shift+F1");

    // Test modifier keys stay as-is (no special single key handling anymore)
    assert_eq!(normalize_shortcut_keys("Alt"), "Alt");
    assert_eq!(normalize_shortcut_keys("Shift"), "Shift");
    assert_eq!(normalize_shortcut_keys("Control"), "Control");
    assert_eq!(normalize_shortcut_keys("Ctrl"), "CommandOrControl");
    assert_eq!(normalize_shortcut_keys("Command"), "CommandOrControl");
    assert_eq!(normalize_shortcut_keys("Cmd"), "CommandOrControl");

    // In combinations, they get normalized too
    assert_eq!(normalize_shortcut_keys("Alt+A"), "Alt+A");
    assert_eq!(normalize_shortcut_keys("Shift+Space"), "Shift+Space");

    // Test Super modifier (maps to CommandOrControl for Tauri)
    assert_eq!(normalize_shortcut_keys("Super+A"), "CommandOrControl+A");
    assert_eq!(
        normalize_shortcut_keys("Super+Control+A"),
        "CommandOrControl+Control+A"
    );
    assert_eq!(
        normalize_shortcut_keys("Super+Control+Alt+A"),
        "CommandOrControl+Control+Alt+A"
    );
    assert_eq!(
        normalize_shortcut_keys("Super+Control+Alt+Shift+A"),
        "CommandOrControl+Control+Alt+Shift+A"
    );
}

#[test]
fn test_validate_key_combination() {
    assert!(validate_key_combination("CommandOrControl+A").is_ok());
    assert!(validate_key_combination("Shift+Alt+F1").is_ok());
    assert!(validate_key_combination("A").is_err()); // Single key not allowed
    assert!(validate_key_combination("A+B").is_err()); // Multi-key without modifier not allowed
    assert!(validate_key_combination("A+CommandOrControl").is_err()); // Must start with modifier
    assert!(validate_key_combination("Space+Shift").is_err()); // Must start with modifier
    assert!(validate_key_combination("Cmd+Shift+Alt+Ctrl+A+B").is_err()); // Too many keys
    assert!(validate_key_combination("CommandOrControl+InvalidKey").is_ok()); // Any non-empty key is valid

    // Test punctuation keys
    assert!(validate_key_combination("CommandOrControl+/").is_ok());
    assert!(validate_key_combination("Cmd+\\").is_ok());
    assert!(validate_key_combination("Ctrl+,").is_ok());
    assert!(validate_key_combination("Shift+.").is_ok());
    assert!(validate_key_combination("Alt+;").is_ok());
    assert!(validate_key_combination("CommandOrControl+[").is_ok());
    assert!(validate_key_combination("CommandOrControl+]").is_ok());
    assert!(validate_key_combination("Cmd+-").is_ok());
    assert!(validate_key_combination("Cmd+=").is_ok());
    assert!(validate_key_combination("/").is_err()); // Single punctuation key not allowed

    // Test special named keys
    assert!(validate_key_combination("CommandOrControl+Slash").is_ok());
    assert!(validate_key_combination("Cmd+BracketLeft").is_ok());
    assert!(validate_key_combination("Ctrl+Minus").is_ok());

    // Test numpad keys
    assert!(validate_key_combination("CommandOrControl+Numpad0").is_ok());
    assert!(validate_key_combination("Alt+NumpadAdd").is_ok());
    assert!(validate_key_combination("Shift+NumpadEnter").is_ok());

    // Test media keys
    assert!(validate_key_combination("MediaPlayPause").is_err()); // Single media key not allowed
    assert!(validate_key_combination("AudioVolumeUp").is_err()); // Single media key not allowed

    // Test system keys
    assert!(validate_key_combination("PrintScreen").is_err()); // Single system key not allowed
    assert!(validate_key_combination("Cmd+Insert").is_ok());
    assert!(validate_key_combination("Alt+CapsLock").is_ok());

    // Test number row symbols
    assert!(validate_key_combination("Shift+1").is_ok()); // !
    assert!(validate_key_combination("Shift+2").is_ok()); // @
    assert!(validate_key_combination("Cmd+Shift+3").is_ok()); // #

    // Test international keys
    assert!(validate_key_combination("CommandOrControl+ü").is_ok());
    assert!(validate_key_combination("Alt+ñ").is_ok());

    // Test Super modifier combinations (maps to CommandOrControl for Tauri)
    assert!(validate_key_combination("Super+A").is_ok()); // Will be normalized to CommandOrControl
    assert!(validate_key_combination("Super+Control+A").is_ok());
    assert!(validate_key_combination("Super+Control+Alt+A").is_ok());
    assert!(validate_key_combination("Super+Control+Alt+Shift+A").is_ok());
    assert!(validate_key_combination("Control+Alt+A").is_ok());
    assert!(validate_key_combination("Control+Shift+A").is_ok());
}


#[test]
fn normalizes_punctuation_and_arrows() {
    assert_eq!(normalize_shortcut_keys("Cmd+,"), "CommandOrControl+Comma");
    assert_eq!(normalize_shortcut_keys("Option+`"), "Alt+Backquote");
    assert_eq!(normalize_single_key("ArrowLeft"), "Left");
    assert_eq!(normalize_single_key(" "), "Space");
    assert_eq!(normalize_single_key("Numpad1"), "Numpad1");
    assert_eq!(normalize_single_key("META"), "CommandOrControl");
    assert_eq!(normalize_shortcut_keys(""), "");
    assert_eq!(normalize_shortcut_keys("Cmd++"), "CommandOrControl++");
}

#[test]
fn validation_messages() {
    assert_eq!(validate_key_combination("A"), Err("Minimum 2 key(s) required".to_string()));
    assert_eq!(
        validate_key_combination("Cmd+Shift+Alt+Ctrl+A+B"),
        Err("Maximum 5 keys allowed in combination".to_string())
    );
    assert_eq!(
        validate_key_combination("A+B"),
        Err("At least one modifier key is required".to_string())
    );
    assert_eq!(
        validate_key_combination("A+Cmd"),
        Err("Keyboard shortcuts must start with a modifier key (Cmd/Ctrl, Alt, or Shift)".to_string())
    );
    assert_eq!(validate_key_combination("Cmd+"), Err("Invalid key: ".to_string()));
    let rules = KeyValidationRules {
        min_keys: 1,
        max_keys: 3,
        require_modifier: false,
        require_modifier_for_multi_key: true,
    };
    assert!(validate_key_combination_with_rules("A", &rules).is_ok());
    assert_eq!(
        validate_key_combination_with_rules("A+B", &rules),
        Err("Multi-key shortcuts must include at least one modifier key".to_string())
    );
    assert!(is_valid_key("X"));
    assert!(!is_valid_key(""));
}
