//! The recording shortcut in toggle and push-to-talk mode.
use vstd::prelude::*;

use crate::commands::audio::RecordingState;

verus! {

/// How the recording shortcut works.
#[derive(Debug, Clone, Copy, PartialEq, Eq, Structural)]
pub enum RecordingMode {
    /// Press to start, press again to stop.
    Toggle,
    /// Hold to record, release to stop.
    PushToTalk,
}

/// A shortcut event.
#[derive(Debug, Clone, Copy, PartialEq, Eq, Structural)]
pub enum KeyEvent {
    Pressed,
    Released,
}

/// Where a shortcut event goes.
#[derive(Debug, Clone, Copy, PartialEq, Eq, Structural)]
pub enum ShortcutRoute {
    /// To the recording handler of the current mode.
    Recording,
    /// To the other shortcuts (ESC).
    Other,
    /// Nowhere.
    Ignore,
}

/// The route of a shortcut event: in toggle mode only presses of the
/// recording shortcut record; in push-to-talk mode every event of either
/// shortcut does; events of other shortcuts go to the other handlers.
pub open spec fn shortcut_route(
    mode: RecordingMode,
    is_recording_shortcut: bool,
    is_ptt_shortcut: bool,
    event: KeyEvent,
) -> ShortcutRoute {
    let handle = match mode {
        RecordingMode::Toggle => is_recording_shortcut && event == KeyEvent::Pressed,
        RecordingMode::PushToTalk => is_recording_shortcut || is_ptt_shortcut,
    };
    if handle {
        ShortcutRoute::Recording
    } else if !is_recording_shortcut && !is_ptt_shortcut {
        ShortcutRoute::Other
    } else {
        ShortcutRoute::Ignore
    }
}

/// Routes a shortcut event.
pub fn handle_global_shortcut(
    mode: RecordingMode,
    is_recording_shortcut: bool,
    is_ptt_shortcut: bool,
    event: KeyEvent,
) -> (r: ShortcutRoute)
    ensures
        r == shortcut_route(mode, is_recording_shortcut, is_ptt_shortcut, event),
{
    let handle = match mode {
        RecordingMode::Toggle => is_recording_shortcut && event == KeyEvent::Pressed,
        RecordingMode::PushToTalk => is_recording_shortcut || is_ptt_shortcut,
    };
    if handle {
        ShortcutRoute::Recording
    } else if !is_recording_shortcut && !is_ptt_shortcut {
        ShortcutRoute::Other
    } else {
        ShortcutRoute::Ignore
    }
}

/// Presses closer together than this, in milliseconds, are throttled.
pub const TOGGLE_THROTTLE_MS: u128 = 300;

/// The toast for a throttled press.
pub const THROTTLE_MESSAGE: &'static str = "Hold on...";

/// What a toggle press does.
#[derive(Debug, Clone, Copy, PartialEq, Eq, Structural)]
pub enum ToggleAction {
    /// Nothing (a release, or a state where the shortcut does nothing).
    Ignore,
    /// Too soon after the last press: say so and do nothing.
    Throttled,
    Start,
    /// Starting: stop as soon as the recording runs.
    StopAfterStart,
    Stop,
}

/// The action of a toggle event, given the milliseconds since the last
/// accepted press (`None` before the first), and whether the press is
/// recorded as the last accepted one.
pub open spec fn toggle_step(state: RecordingState, event: KeyEvent, since_last_ms: Option<u128>) -> (
    ToggleAction,
    bool,
) {
    if event != KeyEvent::Pressed {
        (ToggleAction::Ignore, false)
    } else if since_last_ms matches Some(ms) && ms < TOGGLE_THROTTLE_MS {
        (ToggleAction::Throttled, false)
    } else {
        (
            match state {
                RecordingState::Idle | RecordingState::Error => ToggleAction::Start,
                RecordingState::Starting => ToggleAction::StopAfterStart,
                RecordingState::Recording => ToggleAction::Stop,
                _ => ToggleAction::Ignore,
            },
            true,
        )
    }
}

/// Handles a toggle-mode event.
pub fn handle_toggle_mode(state: RecordingState, event: KeyEvent, since_last_ms: Option<u128>) -> (r:
    (ToggleAction, bool))
    ensures
        r == toggle_step(state, event, since_last_ms),
{
    if event != KeyEvent::Pressed {
        return (ToggleAction::Ignore, false);
    }
    match since_last_ms {
        Some(ms) => {
            if ms < TOGGLE_THROTTLE_MS {
                return (ToggleAction::Throttled, false);
            }
        },
        None => {},
    }
    let action = match state {
        RecordingState::Idle | RecordingState::Error => ToggleAction::Start,
        RecordingState::Starting => ToggleAction::StopAfterStart,
        RecordingState::Recording => ToggleAction::Stop,
        _ => ToggleAction::Ignore,
    };
    (action, true)
}

/// What a push-to-talk event does.
#[derive(Debug, Clone, Copy, PartialEq, Eq, Structural)]
pub enum PttAction {
    Nothing,
    Start,
    Stop,
}

/// The action of a push-to-talk event and whether the key is held after it:
/// a press holds the key and starts an idle recorder; a release stops a
/// starting or running recording, once (a release of a key not held does
/// nothing).
pub open spec fn ptt_step(state: RecordingState, event: KeyEvent, key_held: bool) -> (PttAction, bool) {
    match event {
        KeyEvent::Pressed => (
            if state == RecordingState::Idle || state == RecordingState::Error {
                PttAction::Start
            } else {
                PttAction::Nothing
            },
            true,
        ),
        KeyEvent::Released => if !key_held {
            (PttAction::Nothing, false)
        } else if state == RecordingState::Recording || state == RecordingState::Starting {
            (PttAction::Stop, false)
        } else {
            (PttAction::Nothing, false)
        },
    }
}

/// Handles a push-to-talk event.
pub fn handle_ptt_mode(state: RecordingState, event: KeyEvent, key_held: bool) -> (r: (
    PttAction,
    bool,
))
    ensures
        r == ptt_step(state, event, key_held),
{
    match event {
        KeyEvent::Pressed => {
            let action = match state {
                RecordingState::Idle | RecordingState::Error => PttAction::Start,
                _ => PttAction::Nothing,
            };
            (action, true)
        },
        KeyEvent::Released => {
            if !key_held {
                return (PttAction::Nothing, false);
            }
            match state {
                RecordingState::Recording | RecordingState::Starting => (PttAction::Stop, false),
                _ => (PttAction::Nothing, false),
            }
        },
    }
}

/// Holding and releasing the key records once: a press holds the key and
/// starts an idle recorder; the release that follows lets go of the key and
/// stops a starting or running recording; a further release does nothing.
pub proof fn lemma_push_to_talk_cycle(before: RecordingState, during: RecordingState, later: RecordingState, held: bool)
    ensures
        ptt_step(before, KeyEvent::Pressed, held).1,
        (before == RecordingState::Idle || before == RecordingState::Error) ==> ptt_step(
            before,
            KeyEvent::Pressed,
            held,
        ).0 == PttAction::Start,
        ptt_step(during, KeyEvent::Released, ptt_step(before, KeyEvent::Pressed, held).1) == (
            if during == RecordingState::Recording || during == RecordingState::Starting {
                PttAction::Stop
            } else {
                PttAction::Nothing
            },
            false,
        ),
        ptt_step(later, KeyEvent::Released, ptt_step(during, KeyEvent::Released, held).1) == (
            PttAction::Nothing,
            false,
        ),
{
}

/// A press too soon after the last accepted one changes nothing, whatever
/// the state.
pub proof fn lemma_toggle_throttle(state: RecordingState, ms: u128)
    requires
        ms < TOGGLE_THROTTLE_MS,
    ensures
        toggle_step(state, KeyEvent::Pressed, Some(ms)) == (ToggleAction::Throttled, false),
{
}

/// A press that is not throttled starts an idle recorder and stops a running
/// recording, and is remembered as the last accepted press.
pub proof fn lemma_toggle_start_stop(since_last_ms: Option<u128>)
    requires
        since_last_ms matches Some(ms) ==> ms >= TOGGLE_THROTTLE_MS,
    ensures
        toggle_step(RecordingState::Idle, KeyEvent::Pressed, since_last_ms) == (ToggleAction::Start, true),
        toggle_step(RecordingState::Recording, KeyEvent::Pressed, since_last_ms) == (
            ToggleAction::Stop,
            true,
        ),
{
}

} // verus!
