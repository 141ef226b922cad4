use voicetypr::commands::audio::{
    cancel_transitions, check_recording_requirements, choose_recording_engine,
    classify_transcription_failure, formatting_failure_is_key_problem, formatting_failure_toast,
    is_blank_transcription, next_transcription_attempt, paste_failure_toast, pill_toast_payload,
    recorder_failure_toast, recording_file_name, recording_license_state,
    recording_state_response, resolve_engine_for_model, saved_recording_file_name,
    select_best_fallback_model, should_hide_pill_when_idle, should_show_pill,
    validate_recording_filename, is_fresh_age, ActiveEngineSelection, MissingModel,
    PlannedEngine, RecordingConfig, RecordingLicenseState, RecordingState, RequirementFailure,
    StoredRecordingSettings, TranscriptionFailure,
};
use voicetypr::license::{CachedLicense, LicenseState, LicenseStatus};
use voicetypr::recognition::RecognitionAvailabilitySnapshot;
use voicetypr::remote::settings::RemoteSettings;

fn cached_license(status: LicenseState) -> CachedLicense {
    CachedLicense::new(LicenseStatus {
        status,
        trial_days_left: None,
        license_type: None,
        license_key: None,
        expires_at: None,
    })
}

#[test]
fn should_hide_pill_when_idle_for_never() {
    assert!(should_hide_pill_when_idle("never"));
}

#[test]
fn should_hide_pill_when_idle_for_when_recording() {
    assert!(should_hide_pill_when_idle("when_recording"));
}

#[test]
fn should_hide_pill_when_idle_for_always() {
    assert!(!should_hide_pill_when_idle("always"));
}

#[test]
fn recording_license_state_is_loading_when_cache_absent() {
    assert_eq!(recording_license_state(None), RecordingLicenseState::Loading);
}

#[test]
fn recording_license_state_blocks_expired_license() {
    let cached = cached_license(LicenseState::Expired);
    assert_eq!(recording_license_state(Some(&cached)), RecordingLicenseState::Blocked);
}

#[test]
fn recording_license_state_blocks_missing_license() {
    let cached = cached_license(LicenseState::NoLicense);
    assert_eq!(recording_license_state(Some(&cached)), RecordingLicenseState::Blocked);
}

#[test]
fn recording_license_state_allows_trial_and_licensed() {
    let trial = cached_license(LicenseState::Trial);
    let licensed = cached_license(LicenseState::Licensed);
    assert_eq!(recording_license_state(Some(&trial)), RecordingLicenseState::Ready);
    assert_eq!(recording_license_state(Some(&licensed)), RecordingLicenseState::Ready);
}

fn snapshot(whisper: bool, soniox_selected: bool, soniox_ready: bool) -> RecognitionAvailabilitySnapshot {
    RecognitionAvailabilitySnapshot {
        whisper_available: whisper,
        parakeet_available: false,
        soniox_selected,
        soniox_ready,
        remote_available: false,
    }
}

#[test]
fn requirements_check_engines_before_the_license() {
    let licensed = cached_license(LicenseState::Licensed);
    assert_eq!(
        check_recording_requirements(&snapshot(false, true, false), Some(&licensed)),
        Err(RequirementFailure::SonioxTokenMissing)
    );
    assert_eq!(
        check_recording_requirements(&snapshot(false, false, false), None),
        Err(RequirementFailure::NoModels)
    );
    assert_eq!(
        check_recording_requirements(&snapshot(true, false, false), None),
        Err(RequirementFailure::LicenseLoading)
    );
    let expired = cached_license(LicenseState::Expired);
    assert_eq!(
        check_recording_requirements(&snapshot(true, false, false), Some(&expired)),
        Err(RequirementFailure::LicenseRequired)
    );
    assert_eq!(check_recording_requirements(&snapshot(false, true, true), Some(&licensed)), Ok(()));
    assert_eq!(RequirementFailure::NoModels.error_message(), "No speech recognition models installed. Please download a model first.");
    assert_eq!(RequirementFailure::LicenseRequired.error_message(), "License required to record");
}

#[test]
fn pill_visibility_and_toasts() {
    assert!(should_show_pill(true, "when_recording"));
    assert!(!should_show_pill(true, "never"));
    assert!(!should_show_pill(false, "always"));
    let t = pill_toast_payload(u64::MAX, "hi", 1500);
    assert_eq!((t.id, t.message.as_str(), t.duration_ms), (0, "hi", 1500));
    assert_eq!(pill_toast_payload(7, "x", 1).id, 8);
    assert_eq!(recorder_failure_toast("permission denied by OS"), "Microphone permission denied");
    assert_eq!(recorder_failure_toast("input device not found"), "No microphone found");
    assert_eq!(recorder_failure_toast("device busy"), "No microphone found");
    assert_eq!(recorder_failure_toast("stream busy"), "Microphone busy");
    assert_eq!(recorder_failure_toast("weird"), "Recording failed");
    assert_eq!(recording_file_name(1700000000), "recording_1700000000.wav");
}

#[test]
fn fallback_model_prefers_the_same_family() {
    let available = vec!["base.en".to_string(), "large-v3-turbo".to_string(), "small".to_string()];
    let priority = vec!["small".to_string(), "base.en".to_string()];
    assert_eq!(select_best_fallback_model(&available, "large-v3", &priority), "large-v3-turbo");
    assert_eq!(select_best_fallback_model(&available, "medium", &priority), "small");
    assert_eq!(select_best_fallback_model(&available, "", &priority), "small");
    assert_eq!(select_best_fallback_model(&available, "", &[]), "base.en");
    assert_eq!(select_best_fallback_model(&[], "tiny", &priority), "base.en");
}

#[test]
fn recording_engine_choice() {
    let whisper = vec!["base".to_string(), "small".to_string()];
    let by_size = vec!["small".to_string(), "base".to_string()];
    let r = choose_recording_engine(None, "whisper", "base", None, false, &whisper, &by_size).unwrap();
    assert!(matches!(r, PlannedEngine::Whisper { ref model_name, requested: None } if model_name == "base"));
    let r = choose_recording_engine(None, "whisper", "large-v3", None, false, &whisper, &by_size).unwrap();
    assert!(matches!(r, PlannedEngine::Whisper { ref model_name, requested: Some(ref q) } if model_name == "small" && q == "large-v3"));
    assert_eq!(
        choose_recording_engine(None, "whisper", "", None, false, &vec![], &by_size).unwrap_err(),
        MissingModel::NoWhisperModels
    );
    assert_eq!(
        choose_recording_engine(None, "parakeet", "", None, false, &whisper, &by_size).unwrap_err(),
        MissingModel::NoParakeetModel
    );
    assert_eq!(
        choose_recording_engine(None, "parakeet", "p3", Some(false), false, &whisper, &by_size).unwrap_err(),
        MissingModel::ParakeetNotDownloaded
    );
    assert_eq!(
        choose_recording_engine(None, "soniox", "soniox", None, false, &whisper, &by_size).unwrap_err(),
        MissingModel::SonioxTokenMissing
    );
    assert_eq!(MissingModel::SonioxTokenMissing.log_message(), "Soniox token not configured");
    let mut settings = RemoteSettings::default();
    let c = settings.add_connection("10.0.0.2".to_string(), 47842, None, None, None);
    let r = choose_recording_engine(Some(&c), "parakeet", "", None, false, &whisper, &by_size).unwrap();
    match r {
        PlannedEngine::Selected(sel) => {
            assert_eq!(sel.engine_name(), "remote");
            assert_eq!(sel.model_name(), "10.0.0.2:47842");
        }
        _ => panic!("expected the remote server"),
    }
}

#[test]
fn engine_for_a_file_transcription() {
    let r = resolve_engine_for_model("base", Some("WHISPER"), None, false, Some("/m/base.bin".to_string()), None).unwrap();
    assert!(matches!(r, ActiveEngineSelection::Whisper { ref model_path, .. } if model_path == "/m/base.bin"));
    assert_eq!(
        resolve_engine_for_model("x", Some("Foo"), None, false, None, None).unwrap_err(),
        "Unknown model engine 'foo'."
    );
    assert_eq!(
        resolve_engine_for_model("p", Some("parakeet"), None, false, None, None).unwrap_err(),
        "Parakeet model 'p' not found in registry."
    );
    assert_eq!(
        resolve_engine_for_model("p", None, None, false, None, Some(false)).unwrap_err(),
        "Model 'p' is a Parakeet model but not downloaded. Please download it first."
    );
    assert_eq!(
        resolve_engine_for_model("q", None, None, false, None, None).unwrap_err(),
        "Model 'q' not found in Whisper or Parakeet registries"
    );
    assert_eq!(
        resolve_engine_for_model("soniox", None, None, false, None, None).unwrap_err(),
        "Soniox token not configured. Please configure it in Models."
    );
    let r = resolve_engine_for_model("p", None, None, false, None, Some(true)).unwrap();
    assert_eq!(r.engine_name(), "parakeet");
}

#[test]
fn transcription_outcomes() {
    assert!(is_blank_transcription(""));
    assert!(is_blank_transcription("  \n"));
    assert!(is_blank_transcription("[BLANK_AUDIO]"));
    assert!(!is_blank_transcription("hello"));
    assert_eq!(next_transcription_attempt(1, false), Some(2));
    assert_eq!(next_transcription_attempt(3, false), None);
    assert_eq!(next_transcription_attempt(1, true), None);
    assert_eq!(classify_transcription_failure("Transcription cancelled"), TranscriptionFailure::Cancelled);
    assert_eq!(classify_transcription_failure("Recording too short"), TranscriptionFailure::TooShort);
    assert_eq!(classify_transcription_failure("Failed to connect to remote server: x"), TranscriptionFailure::RemoteUnavailable);
    assert_eq!(classify_transcription_failure("boom"), TranscriptionFailure::Other);
    assert_eq!(formatting_failure_toast("HTTP 401"), "Formatting failed: API key unauthorized");
    assert_eq!(formatting_failure_toast("429 Too Many"), "Formatting failed: Rate limit exceeded");
    assert_eq!(formatting_failure_toast("network down"), "Formatting failed: Network error");
    assert_eq!(formatting_failure_toast("?"), "Formatting failed: Service unavailable");
    assert!(formatting_failure_is_key_problem("400 Bad Request"));
    assert!(!formatting_failure_is_key_problem("429"));
    assert_eq!(paste_failure_toast("accessibility missing"), "Text copied - grant permission to auto-paste");
    assert_eq!(paste_failure_toast("x"), "Paste failed - text in clipboard");
}

#[test]
fn recording_states_and_cancellation() {
    assert_eq!(recording_state_response(RecordingState::Transcribing).state, "transcribing");
    assert_eq!(
        cancel_transitions(RecordingState::Recording),
        vec![RecordingState::Stopping, RecordingState::Idle]
    );
    assert_eq!(
        cancel_transitions(RecordingState::Transcribing),
        vec![RecordingState::Error, RecordingState::Idle]
    );
    assert_eq!(cancel_transitions(RecordingState::Starting), vec![RecordingState::Idle]);
}

#[test]
fn recording_file_names_are_checked() {
    assert_eq!(validate_recording_filename(""), Err("Empty filename".to_string()));
    assert_eq!(validate_recording_filename("/etc/passwd"), Err("Absolute paths are not allowed".to_string()));
    assert_eq!(validate_recording_filename("../x.wav"), Err("Invalid path component: ParentDir".to_string()));
    assert_eq!(validate_recording_filename("./x.wav"), Err("Invalid path component: CurDir".to_string()));
    assert_eq!(validate_recording_filename("a/../b.wav"), Err("Invalid path component: ParentDir".to_string()));
    assert!(validate_recording_filename("a/./b.wav").is_ok());
    assert!(validate_recording_filename("2024-01-01_10-00-00_abcd1234.wav").is_ok());
    assert_eq!(
        saved_recording_file_name("2024-01-01_10-00-00", "abcd1234-aaaa-bbbb"),
        "2024-01-01_10-00-00_abcd1234.wav"
    );
}

#[test]
fn recording_config_defaults() {
    let stored = StoredRecordingSettings {
        show_pill_widget: None,
        ai_enabled: None,
        ai_provider: None,
        ai_model: None,
        current_model: Some("base".to_string()),
        current_engine: None,
        language: None,
        translate_to_english: None,
        show_recording_status: None,
    };
    let c = RecordingConfig::from_stored(stored, "when_recording".to_string());
    assert!(c.show_pill_widget);
    assert!(!c.ai_enabled);
    assert_eq!(c.current_engine, "whisper");
    assert_eq!(c.language, "en");
    assert_eq!(c.current_model, "base");
    assert!(c.show_recording_status);
    assert!(c.is_fresh());
    assert!(is_fresh_age(299_999_999_999));
    assert!(!is_fresh_age(300_000_000_000));
}
