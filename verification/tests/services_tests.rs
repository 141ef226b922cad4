use voicetypr::audio::{
    converted_file_name, downmix_to_mono, is_wav_extension, microphone_fallback, s32_to_i16,
    MicrophoneFallback,
};
use voicetypr::commands::audio::{
    has_audio_samples, is_wav_file_name, recordings_to_remove, stop_toast, RecordingFile,
    RecordingState,
};
use voicetypr::commands::history::{is_expired, transcriptions_to_remove};
use voicetypr::commands::text::{
    after_clipboard_set, begin_insertion, clipboard_to_restore, needs_paste_fallback,
    paste_outcome_toast, should_capture_previous,
};
use voicetypr::meetings::session::{elapsed_secs, ActiveMeeting};
use voicetypr::meetings::types::{MeetingSegment, Speaker};
use voicetypr::commands::stt::{
    body_snippet, soniox_key_to_check, soniox_key_verdict, soniox_poll_step,
    soniox_transcript_text, PollStep, SONIOX_TIMEOUT_NANOS,
};
use voicetypr::remote::settings::RemoteSettings;
use voicetypr::startup::{
    ai_startup_action, model_startup_action, sharing_autostart_allowed, AiStartupAction,
    ModelStartupAction,
};

#[test]
fn soniox_key_prefers_camel_case_and_trims() {
    assert_eq!(
        soniox_key_to_check(Some("plain".to_string()), Some("  camel  ".to_string())),
        Ok("camel".to_string())
    );
    assert_eq!(soniox_key_to_check(Some(" plain ".to_string()), None), Ok("plain".to_string()));
    assert_eq!(
        soniox_key_to_check(None, Some("   ".to_string())),
        Err("API key cannot be empty".to_string())
    );
    assert_eq!(soniox_key_to_check(None, None), Err("API key cannot be empty".to_string()));
}

#[test]
fn soniox_key_verdicts() {
    assert_eq!(soniox_key_verdict(200, "OK", ""), Ok(()));
    assert_eq!(soniox_key_verdict(401, "Unauthorized", "x"), Err("Invalid Soniox API key".to_string()));
    assert_eq!(soniox_key_verdict(403, "Forbidden", "x"), Err("Invalid Soniox API key".to_string()));
    assert_eq!(
        soniox_key_verdict(500, "Internal Server Error", "boom"),
        Err("HTTP Internal Server Error: boom".to_string())
    );
    let long = "a".repeat(600);
    let verdict = soniox_key_verdict(502, "Bad Gateway", &long).unwrap_err();
    assert_eq!(verdict, format!("HTTP Bad Gateway: {}", "a".repeat(500)));
}

#[test]
fn body_snippet_counts_characters() {
    assert_eq!(body_snippet("héllo", 2), "hé");
    assert_eq!(body_snippet("hi", 10), "hi");
    assert_eq!(body_snippet("", 3), "");
}

#[test]
fn soniox_poll_steps() {
    assert_eq!(soniox_poll_step("completed", None, 0), PollStep::Done);
    assert_eq!(
        soniox_poll_step("error", Some("bad audio"), 5),
        PollStep::Failed("Soniox job failed: bad audio".to_string())
    );
    assert_eq!(
        soniox_poll_step("error", None, 5),
        PollStep::Failed("Soniox job failed: Job failed".to_string())
    );
    assert_eq!(soniox_poll_step("processing", None, SONIOX_TIMEOUT_NANOS), PollStep::Wait);
    assert_eq!(soniox_poll_step("queued", None, SONIOX_TIMEOUT_NANOS + 1), PollStep::TimedOut);
}

#[test]
fn soniox_transcript_sources() {
    assert_eq!(
        soniox_transcript_text(Some("hello".to_string()), Some(vec![Some("x".to_string())])),
        Ok("hello".to_string())
    );
    assert_eq!(
        soniox_transcript_text(
            None,
            Some(vec![Some("hello".to_string()), None, Some("world".to_string())])
        ),
        Ok("hello world".to_string())
    );
    assert_eq!(
        soniox_transcript_text(None, Some(vec![None])),
        Err("Soniox transcript format not recognized".to_string())
    );
    assert_eq!(
        soniox_transcript_text(None, None),
        Err("Soniox transcript format not recognized".to_string())
    );
}

#[test]
fn ai_startup_checks() {
    assert_eq!(ai_startup_action(false, Some(false), ""), AiStartupAction::Keep);
    assert_eq!(ai_startup_action(true, None, ""), AiStartupAction::Keep);
    assert_eq!(ai_startup_action(true, Some(false), "gpt"), AiStartupAction::DisableNoKey);
    assert_eq!(ai_startup_action(true, Some(true), ""), AiStartupAction::DisableNoModel);
    assert_eq!(ai_startup_action(true, Some(true), "gpt"), AiStartupAction::Keep);
}

#[test]
fn model_startup_checks() {
    assert_eq!(model_startup_action("", "parakeet", Some(false), None), ModelStartupAction::Keep);
    assert_eq!(
        model_startup_action("parakeet-tdt", "parakeet", Some(true), None),
        ModelStartupAction::AutoloadParakeet
    );
    assert_eq!(
        model_startup_action("parakeet-tdt", "parakeet", Some(false), None),
        ModelStartupAction::ClearParakeet
    );
    assert_eq!(model_startup_action("parakeet-tdt", "parakeet", None, None), ModelStartupAction::Keep);
    assert_eq!(
        model_startup_action("base.en", "whisper", None, Some(false)),
        ModelStartupAction::ClearWhisper
    );
    assert_eq!(model_startup_action("base.en", "whisper", None, Some(true)), ModelStartupAction::Keep);
    assert_eq!(model_startup_action("base.en", "whisper", None, None), ModelStartupAction::Keep);
}

#[test]
fn sharing_autostart_needs_no_active_remote() {
    let mut settings = RemoteSettings::new();
    assert!(!sharing_autostart_allowed(&settings));
    settings.server_config.enabled = true;
    assert!(sharing_autostart_allowed(&settings));
    settings.active_connection_id = Some("server-1".to_string());
    assert!(!sharing_autostart_allowed(&settings));
}

#[test]
fn wav_extension_and_converted_name() {
    assert!(is_wav_extension(Some("wav")));
    assert!(is_wav_extension(Some("WAV")));
    assert!(!is_wav_extension(Some("mp3")));
    assert!(!is_wav_extension(None));
    assert_eq!(converted_file_name(1700000000), "converted_1700000000.wav");
    assert_eq!(converted_file_name(0), "converted_0.wav");
}

#[test]
fn downmix_averages_frames_toward_zero() {
    assert_eq!(downmix_to_mono(&vec![10, 20, -3, -4, 7], 2), vec![15, -3, 3]);
    assert_eq!(downmix_to_mono(&vec![1, 2, 3], 1), vec![1, 2, 3]);
    assert_eq!(downmix_to_mono(&vec![32767, 32767, -32768, -32768], 2), vec![32767, -32768]);
    assert_eq!(downmix_to_mono(&vec![], 2), Vec::<i16>::new());
    assert_eq!(downmix_to_mono(&vec![-1, -1, 1], 3), vec![0]);
}

#[test]
fn s32_samples_keep_their_top_half() {
    assert_eq!(s32_to_i16(0x7fff_0000), 32767);
    assert_eq!(s32_to_i16(65536), 1);
    assert_eq!(s32_to_i16(65535), 0);
    assert_eq!(s32_to_i16(-1), -1);
    assert_eq!(s32_to_i16(i32::MIN), -32768);
}

#[test]
fn microphone_removal_reactions() {
    let devices = vec!["Built-in".to_string(), "USB Mic".to_string()];
    assert_eq!(microphone_fallback(None, &devices, RecordingState::Idle), MicrophoneFallback::Keep);
    assert_eq!(
        microphone_fallback(Some("USB Mic"), &devices, RecordingState::Idle),
        MicrophoneFallback::Keep
    );
    assert_eq!(
        microphone_fallback(Some("Headset"), &devices, RecordingState::Recording),
        MicrophoneFallback::Defer
    );
    assert_eq!(
        microphone_fallback(Some("Headset"), &devices, RecordingState::Transcribing),
        MicrophoneFallback::Defer
    );
    assert_eq!(
        microphone_fallback(Some("Headset"), &devices, RecordingState::Idle),
        MicrophoneFallback::ResetToDefault
    );
    assert_eq!(
        microphone_fallback(Some("Headset"), &devices, RecordingState::Error),
        MicrophoneFallback::ResetToDefault
    );
}

fn rec(name: &str, created: Option<u64>) -> RecordingFile {
    RecordingFile { name: name.to_string(), created_nanos: created }
}

#[test]
fn wav_names_follow_the_extension() {
    assert!(is_wav_file_name("a.wav"));
    assert!(is_wav_file_name("a.b.wav"));
    assert!(!is_wav_file_name(".wav"));
    assert!(!is_wav_file_name("a.WAV"));
    assert!(!is_wav_file_name("a.wav.txt"));
    assert!(!is_wav_file_name("wav"));
}

#[test]
fn oldest_recordings_go_first() {
    let files = vec![
        rec("c.wav", Some(30)),
        rec("notes.txt", Some(1)),
        rec("a.wav", Some(10)),
        rec("b.wav", Some(20)),
        rec("u.wav", None),
    ];
    assert_eq!(recordings_to_remove(&files, 2), vec!["u.wav".to_string(), "a.wav".to_string()]);
    assert_eq!(recordings_to_remove(&files, 0), Vec::<String>::new());
    assert_eq!(recordings_to_remove(&files, 4), Vec::<String>::new());
    assert_eq!(recordings_to_remove(&files, 10), Vec::<String>::new());
    let ties = vec![rec("x.wav", Some(5)), rec("y.wav", Some(5)), rec("z.wav", Some(5))];
    assert_eq!(recordings_to_remove(&ties, 1), vec!["x.wav".to_string(), "y.wav".to_string()]);
}

#[test]
fn expired_transcriptions() {
    let cutoff = (1_700_000_000i64, 0u32);
    assert!(is_expired(Some((1_699_999_999, 999_999_999)), cutoff));
    assert!(!is_expired(Some((1_700_000_000, 0)), cutoff));
    assert!(!is_expired(None, cutoff));
    let keys = vec![
        "2023-01-01T00:00:00Z".to_string(),
        "not a date".to_string(),
        "2030-01-01T00:00:00+02:00".to_string(),
        "2023-11-14T22:13:19.5Z".to_string(),
        "2023-11-14T22:13:20Z".to_string(),
    ];
    assert_eq!(
        transcriptions_to_remove(&keys, cutoff),
        vec!["2023-01-01T00:00:00Z".to_string(), "2023-11-14T22:13:19.5Z".to_string()]
    );
}

#[test]
fn meeting_snapshot_and_finish() {
    let meeting = ActiveMeeting {
        id: "m1".to_string(),
        started_at: "2024-05-01T10:00:00+00:00".to_string(),
        started_at_instant: (1_714_557_600, 500_000_000),
        recordings_dir: "/tmp/m1".to_string(),
        segments: vec![MeetingSegment {
            speaker: Speaker::Me,
            text: "hello".to_string(),
            started_at_ms: 0,
            duration_ms: 1200,
        }],
        language: Some("en".to_string()),
        title: "Standup".to_string(),
    };
    let snap = meeting.snapshot((1_714_557_665, 400_000_000));
    assert_eq!(snap.duration_seconds, 64);
    assert_eq!(snap.id, "m1");
    assert_eq!(snap.title, "Standup");
    assert_eq!(snap.ended_at, None);
    assert_eq!(snap.segments.len(), 1);
    assert_eq!(snap.segments[0].text, "hello");
    assert_eq!(snap.language, Some("en".to_string()));
    assert!(snap.summary.is_none());
    let early = meeting.snapshot((1_714_557_000, 0));
    assert_eq!(early.duration_seconds, 0);
    let done = meeting.finished((1_714_557_700, 500_000_000), "2024-05-01T10:01:40+00:00".to_string());
    assert_eq!(done.duration_seconds, 100);
    assert_eq!(done.ended_at, Some("2024-05-01T10:01:40+00:00".to_string()));
    assert_eq!(elapsed_secs((10, 900_000_000), (11, 899_999_999)), 0);
    assert_eq!(elapsed_secs((10, 900_000_000), (11, 900_000_000)), 1);
}

#[test]
fn stopped_recording_checks() {
    assert!(!has_audio_samples(0));
    assert!(!has_audio_samples(44));
    assert!(has_audio_samples(45));
    assert_eq!(stop_toast("Recording stopped: silence detected"), Some("No sound detected"));
    assert_eq!(stop_toast("Recording stopped"), None);
}

#[test]
fn clipboard_insertion_steps() {
    assert_eq!(begin_insertion(false), Ok(()));
    assert_eq!(begin_insertion(true), Err("Text insertion already in progress".to_string()));
    assert!(should_capture_previous(false));
    assert!(!should_capture_previous(true));
    assert_eq!(after_clipboard_set(None, true), Ok(()));
    assert_eq!(
        after_clipboard_set(Some("busy".to_string()), true),
        Err("Failed to set clipboard: busy".to_string())
    );
    assert_eq!(
        after_clipboard_set(None, false),
        Err("No accessibility permission - text copied to clipboard. Please paste manually or grant accessibility permission.".to_string())
    );
    assert!(needs_paste_fallback(false));
    assert!(!needs_paste_fallback(true));
    assert_eq!(paste_outcome_toast(true, false), None);
    assert_eq!(paste_outcome_toast(false, true), None);
    assert_eq!(paste_outcome_toast(false, false), Some("Paste failed - copied to clipboard"));
    assert_eq!(clipboard_to_restore(false, true, Some("old".to_string())), Some("old".to_string()));
    assert_eq!(clipboard_to_restore(true, true, Some("old".to_string())), None);
    assert_eq!(clipboard_to_restore(false, false, Some("old".to_string())), None);
    assert_eq!(clipboard_to_restore(false, true, None), None);
}
