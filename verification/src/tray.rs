//! What a click on the tray menu asks for, and the log lines kept by the
//! log targets.
use vstd::prelude::*;

use crate::recording::hotkeys::RecordingMode;
use crate::text::{chars_of, contains, has_prefix, has_suffix, slice_chars, str_contains, str_eq, str_ends_with, str_starts_with, string_from};

verus! {

/// The request behind a tray menu item.
#[derive(Debug, Clone, PartialEq, Eq)]
pub enum TrayAction {
    /// Show the main window on its settings page.
    OpenSettings,
    /// Leave the application.
    Quit,
    /// Look for an update.
    CheckUpdates,
    /// Make the named model the current one.
    SelectModel(String),
    /// Record from the system's default microphone.
    DefaultMicrophone,
    /// Record from the named microphone.
    SelectMicrophone(String),
    /// Copy the history entry saved at this time to the clipboard.
    CopyRecent(String),
    /// Switch the recording mode.
    SetRecordingMode(RecordingMode),
    /// An item that asks for nothing.
    Ignore,
}

/// `a` is what a click on the tray item `id` asks for. An item id names its
/// model, microphone or history entry after a prefix (`model_`,
/// `microphone_`, `recent_copy_`).
pub open spec fn is_tray_action(a: TrayAction, id: Seq<char>) -> bool {
    if id == "settings"@ {
        a == TrayAction::OpenSettings
    } else if id == "quit"@ {
        a == TrayAction::Quit
    } else if id == "check_updates"@ {
        a == TrayAction::CheckUpdates
    } else if has_prefix(id, "model_"@) {
        a matches TrayAction::SelectModel(m) && m@ == id.subrange(6, id.len() as int)
    } else if id == "microphone_default"@ {
        a == TrayAction::DefaultMicrophone
    } else if has_prefix(id, "microphone_"@) {
        a matches TrayAction::SelectMicrophone(m) && m@ == id.subrange(11, id.len() as int)
    } else if has_prefix(id, "recent_copy_"@) {
        a matches TrayAction::CopyRecent(t) && t@ == id.subrange(12, id.len() as int)
    } else if id == "recording_mode_toggle"@ || id == "recording_mode_push_to_talk"@ {
        a == TrayAction::SetRecordingMode(
            if has_suffix(id, "push_to_talk"@) {
                RecordingMode::PushToTalk
            } else {
                RecordingMode::Toggle
            },
        )
    } else {
        a == TrayAction::Ignore
    }
}

/// The characters of `s` from position `k` on.
fn suffix_from(s: &str, k: usize) -> (r: String)
    requires
        k <= s@.len(),
    ensures
        r@ == s@.subrange(k as int, s@.len() as int),
{
    let v = chars_of(s);
    let t = slice_chars(v.as_slice(), k, v.len());
    string_from(t.as_slice())
}

/// What a click on the tray item `id` asks for.
pub fn tray_action(id: &str) -> (r: TrayAction)
    ensures
        is_tray_action(r, id@),
{
    proof {
        reveal_strlit("model_");
        reveal_strlit("microphone_");
        reveal_strlit("recent_copy_");
    }
    if str_eq(id, "settings") {
        TrayAction::OpenSettings
    } else if str_eq(id, "quit") {
        TrayAction::Quit
    } else if str_eq(id, "check_updates") {
        TrayAction::CheckUpdates
    } else if str_starts_with(id, "model_") {
        TrayAction::SelectModel(suffix_from(id, 6))
    } else if str_eq(id, "microphone_default") {
        TrayAction::DefaultMicrophone
    } else if str_starts_with(id, "microphone_") {
        TrayAction::SelectMicrophone(suffix_from(id, 11))
    } else if str_starts_with(id, "recent_copy_") {
        TrayAction::CopyRecent(suffix_from(id, 12))
    } else if str_eq(id, "recording_mode_toggle") || str_eq(id, "recording_mode_push_to_talk") {
        if str_ends_with(id, "push_to_talk") {
            TrayAction::SetRecordingMode(RecordingMode::PushToTalk)
        } else {
            TrayAction::SetRecordingMode(RecordingMode::Toggle)
        }
    } else {
        TrayAction::Ignore
    }
}

/// The recording mode a stored setting names: push-to-talk, else toggle.
pub fn recording_mode_setting(value: &str) -> (r: RecordingMode)
    ensures
        r == (if value@ == "push_to_talk"@ {
            RecordingMode::PushToTalk
        } else {
            RecordingMode::Toggle
        }),
{
    if str_eq(value, "push_to_talk") {
        RecordingMode::PushToTalk
    } else {
        RecordingMode::Toggle
    }
}

/// A log target that only adds noise: the speech engine, the level meter and
/// the audio libraries.
pub open spec fn is_noisy_target(target: Seq<char>) -> bool {
    ||| contains(target, "whisper_rs"@)
    ||| contains(target, "audio::level_meter"@)
    ||| contains(target, "cpal"@)
    ||| contains(target, "rubato"@)
    ||| contains(target, "hound"@)
}

/// Whether a log line from `target` is written (to the terminal and to the
/// log file alike).
pub fn keeps_log_target(target: &str) -> (b: bool)
    ensures
        b == !is_noisy_target(target@),
{
    !(str_contains(target, "whisper_rs") || str_contains(target, "audio::level_meter")
        || str_contains(target, "cpal") || str_contains(target, "rubato") || str_contains(
        target,
        "hound",
    ))
}

} // verus!
