use voicetypr::commands::reset::{permission_reset_script, registry_settings_key, ResetLedger};
use voicetypr::ffmpeg::{
    binary_not_found_message, dedup_dirs, exit_status_message, ffmpeg_candidates,
    ffprobe_candidates, probe_args, segment_args, to_wav_args,
};
use voicetypr::recording::escape_handler::{handle_escape_key_press, EscapeAction};
use voicetypr::recording::hotkeys::{
    handle_global_shortcut, handle_ptt_mode, handle_toggle_mode, KeyEvent, PttAction,
    RecordingMode, ShortcutRoute, ToggleAction,
};
use voicetypr::commands::audio::RecordingState;

#[test]
fn ffmpeg_invocations() {
    assert_eq!(ffmpeg_candidates(false), vec!["ffmpeg", "ffmpeg-aarch64-apple-darwin"]);
    assert_eq!(ffprobe_candidates(true), vec!["ffprobe.exe", "ffprobe-x86_64-pc-windows-msvc.exe"]);
    assert_eq!(
        to_wav_args("in.m4a", "out.wav"),
        vec!["-y", "-loglevel", "error", "-hide_banner", "-vn", "-sn", "-i", "in.m4a", "-ac", "1", "-ar", "16000", "-sample_fmt", "s16", "out.wav"]
    );
    assert_eq!(
        segment_args("in.wav", "out%03d.wav", 30),
        vec!["-y", "-loglevel", "error", "-hide_banner", "-i", "in.wav", "-f", "segment", "-segment_time", "30", "-reset_timestamps", "1", "out%03d.wav"]
    );
    assert_eq!(probe_args("a.wav").last().map(|s| s.as_str()), Some("a.wav"));
    let dirs = vec!["/a".to_string(), "/b".to_string(), "/a".to_string(), "/c".to_string(), "/b".to_string()];
    assert_eq!(dedup_dirs(&dirs), vec!["/a".to_string(), "/b".to_string(), "/c".to_string()]);
    assert_eq!(
        binary_not_found_message("ffmpeg", &vec!["/a/ffmpeg".to_string(), "/b/ffmpeg".to_string()]),
        "ffmpeg binary not found. Searched: /a/ffmpeg, /b/ffmpeg"
    );
    assert_eq!(exit_status_message("ffmpeg", Some(1)), "ffmpeg exited with status Some(1)");
    assert_eq!(exit_status_message("ffmpeg", Some(-9)), "ffmpeg exited with status Some(-9)");
    assert_eq!(exit_status_message("ffmpeg", None), "ffmpeg exited with status None");
}

#[test]
fn reset_ledger() {
    let mut ledger = ResetLedger::new();
    ledger.record(Ok(()), "Settings store", "Failed to save cleared settings store");
    ledger.record(Err("disk".to_string()), "Downloaded models", "Failed to delete models directory");
    ledger.record_license(Err("Store access failed: none".to_string()));
    ledger.record_license(Ok(()));
    let r = ledger.finish();
    assert!(!r.success);
    assert_eq!(r.errors, vec!["Failed to delete models directory: disk".to_string()]);
    assert_eq!(r.cleared_items, vec!["Settings store".to_string(), "License data".to_string()]);
    let mut ok = ResetLedger::new();
    ok.record_license(Err("boom".to_string()));
    assert_eq!(ok.errors, vec!["Failed to clear license: boom".to_string()]);
    assert!(ResetLedger::new().finish().success);
    assert_eq!(
        permission_reset_script("com.ideaplexa.voicetypr"),
        "do shell script \"tccutil reset All com.ideaplexa.voicetypr\" with administrator privileges"
    );
    assert_eq!(registry_settings_key("x"), "HKCU\\\\Software\\\\x");
}

#[test]
fn shortcut_steps() {
    assert_eq!(handle_global_shortcut(RecordingMode::Toggle, true, false, KeyEvent::Released), ShortcutRoute::Ignore);
    assert_eq!(handle_global_shortcut(RecordingMode::Toggle, true, false, KeyEvent::Pressed), ShortcutRoute::Recording);
    assert_eq!(handle_global_shortcut(RecordingMode::PushToTalk, false, true, KeyEvent::Released), ShortcutRoute::Recording);
    assert_eq!(handle_global_shortcut(RecordingMode::Toggle, false, false, KeyEvent::Pressed), ShortcutRoute::Other);
    assert_eq!(handle_toggle_mode(RecordingState::Idle, KeyEvent::Pressed, None), (ToggleAction::Start, true));
    assert_eq!(handle_toggle_mode(RecordingState::Recording, KeyEvent::Pressed, Some(120)), (ToggleAction::Throttled, false));
    assert_eq!(handle_toggle_mode(RecordingState::Starting, KeyEvent::Pressed, Some(900)), (ToggleAction::StopAfterStart, true));
    assert_eq!(handle_toggle_mode(RecordingState::Transcribing, KeyEvent::Pressed, None), (ToggleAction::Ignore, true));
    assert_eq!(handle_ptt_mode(RecordingState::Idle, KeyEvent::Pressed, false), (PttAction::Start, true));
    assert_eq!(handle_ptt_mode(RecordingState::Recording, KeyEvent::Released, true), (PttAction::Stop, false));
    assert_eq!(handle_ptt_mode(RecordingState::Recording, KeyEvent::Released, false), (PttAction::Nothing, false));
    let first = handle_escape_key_press(RecordingState::Recording, KeyEvent::Pressed, false);
    assert_eq!(first, (EscapeAction::AskConfirmation, true));
    let second = handle_escape_key_press(RecordingState::Recording, KeyEvent::Pressed, first.1);
    assert_eq!(second, (EscapeAction::Cancel, false));
    assert_eq!(handle_escape_key_press(RecordingState::Idle, KeyEvent::Pressed, true), (EscapeAction::Ignore, true));
    assert_eq!(handle_escape_key_press(RecordingState::Recording, KeyEvent::Released, false), (EscapeAction::Ignore, false));
}
