use voicetypr::recording::hotkeys::RecordingMode;
use voicetypr::tray::{keeps_log_target, recording_mode_setting, tray_action, TrayAction};

#[test]
fn tray_items_route_to_actions() {
    assert_eq!(tray_action("settings"), TrayAction::OpenSettings);
    assert_eq!(tray_action("quit"), TrayAction::Quit);
    assert_eq!(tray_action("check_updates"), TrayAction::CheckUpdates);
    assert_eq!(tray_action("model_base.en"), TrayAction::SelectModel("base.en".to_string()));
    assert_eq!(tray_action("microphone_default"), TrayAction::DefaultMicrophone);
    assert_eq!(
        tray_action("microphone_USB Mic"),
        TrayAction::SelectMicrophone("USB Mic".to_string())
    );
    assert_eq!(
        tray_action("recent_copy_2024-01-01T00:00:00Z"),
        TrayAction::CopyRecent("2024-01-01T00:00:00Z".to_string())
    );
    assert_eq!(
        tray_action("recording_mode_push_to_talk"),
        TrayAction::SetRecordingMode(RecordingMode::PushToTalk)
    );
    assert_eq!(
        tray_action("recording_mode_toggle"),
        TrayAction::SetRecordingMode(RecordingMode::Toggle)
    );
    assert_eq!(tray_action("model_"), TrayAction::SelectModel(String::new()));
    assert_eq!(tray_action("about"), TrayAction::Ignore);
}

#[test]
fn stored_recording_mode() {
    assert_eq!(recording_mode_setting("push_to_talk"), RecordingMode::PushToTalk);
    assert_eq!(recording_mode_setting("toggle"), RecordingMode::Toggle);
    assert_eq!(recording_mode_setting(""), RecordingMode::Toggle);
}

#[test]
fn noisy_log_targets_are_dropped() {
    assert!(keeps_log_target("voicetypr::commands::audio"));
    assert!(!keeps_log_target("whisper_rs::context"));
    assert!(!keeps_log_target("voicetypr::audio::level_meter"));
    assert!(!keeps_log_target("cpal::host"));
    assert!(!keeps_log_target("rubato"));
    assert!(!keeps_log_target("hound::write"));
}
