//! ESC during a recording: the first press asks for confirmation, a second
//! press within two seconds cancels.
use vstd::prelude::*;

use super::hotkeys::KeyEvent;
use crate::commands::audio::RecordingState;

verus! {

/// The confirmation shown after the first ESC.
pub const ESC_CONFIRM_MESSAGE: &'static str = "Press ESC again to cancel";

/// How long the confirmation shows and the first press counts, in milliseconds.
pub const ESC_WINDOW_MS: u64 = 2000;

/// What an ESC press does.
#[derive(Debug, Clone, Copy, PartialEq, Eq, Structural)]
pub enum EscapeAction {
    /// Nothing: a release, or no recording to cancel.
    Ignore,
    /// Show the confirmation and start the two-second window.
    AskConfirmation,
    /// Cancel the recording.
    Cancel,
}

/// ESC matters while a recording starts, runs, stops or is transcribed.
pub open spec fn escape_applies(state: RecordingState) -> bool {
    state == RecordingState::Recording || state == RecordingState::Transcribing || state
        == RecordingState::Starting || state == RecordingState::Stopping
}

/// The action of an ESC event and whether a first press is pending after it.
pub open spec fn escape_step(state: RecordingState, event: KeyEvent, pressed_once: bool) -> (
    EscapeAction,
    bool,
) {
    if event != KeyEvent::Pressed || !escape_applies(state) {
        (EscapeAction::Ignore, pressed_once)
    } else if !pressed_once {
        (EscapeAction::AskConfirmation, true)
    } else {
        (EscapeAction::Cancel, false)
    }
}

/// Handles an ESC event: the action and whether a first press is pending
/// afterwards.
pub fn handle_escape_key_press(state: RecordingState, event: KeyEvent, pressed_once: bool) -> (r: (
    EscapeAction,
    bool,
))
    ensures
        r == escape_step(state, event, pressed_once),
{
    let applies = match state {
        RecordingState::Recording | RecordingState::Transcribing | RecordingState::Starting
        | RecordingState::Stopping => true,
        _ => false,
    };
    if event != KeyEvent::Pressed || !applies {
        (EscapeAction::Ignore, pressed_once)
    } else if !pressed_once {
        (EscapeAction::AskConfirmation, true)
    } else {
        (EscapeAction::Cancel, false)
    }
}

/// Two ESC presses during a recording, with no pending press before, cancel
/// it: the first asks for confirmation, the second cancels and clears the
/// pending press.
pub proof fn lemma_double_escape_cancels(state: RecordingState)
    requires
        escape_applies(state),
    ensures
        escape_step(state, KeyEvent::Pressed, false) == (EscapeAction::AskConfirmation, true),
        escape_step(state, KeyEvent::Pressed, true) == (EscapeAction::Cancel, false),
{
}

/// Outside a recording ESC does nothing and changes nothing.
pub proof fn lemma_escape_idle_is_inert(state: RecordingState, event: KeyEvent, pressed_once: bool)
    requires
        !escape_applies(state),
    ensures
        escape_step(state, event, pressed_once) == (EscapeAction::Ignore, pressed_once),
{
}

} // verus!
