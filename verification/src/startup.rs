//! The checks made when the app starts: AI formatting that cannot work is
//! turned off, a selected model that is gone is cleared, and sharing
//! restarts only when no remote server is in use.
use vstd::prelude::*;

use crate::remote::settings::RemoteSettings;

verus! {

/// What the start-up check does with AI formatting.
#[derive(Debug, Clone, Copy, PartialEq, Eq, Structural)]
pub enum AiStartupAction {
    /// Leave the settings as they are.
    Keep,
    /// Turn AI formatting off: no API key is stored.
    DisableNoKey,
    /// Turn AI formatting off: no model is selected.
    DisableNoModel,
}

/// The start-up check of AI formatting. `has_api_key` is `None` when the AI
/// settings could not be read (nothing is changed then).
pub fn ai_startup_action(ai_enabled: bool, has_api_key: Option<bool>, model: &str) -> (r:
    AiStartupAction)
    ensures
        r == (if !ai_enabled {
            AiStartupAction::Keep
        } else {
            match has_api_key {
                None => AiStartupAction::Keep,
                Some(false) => AiStartupAction::DisableNoKey,
                Some(true) => if model@.len() == 0 {
                    AiStartupAction::DisableNoModel
                } else {
                    AiStartupAction::Keep
                },
            }
        }),
{
    if !ai_enabled {
        return AiStartupAction::Keep;
    }
    match has_api_key {
        None => AiStartupAction::Keep,
        Some(false) => AiStartupAction::DisableNoKey,
        Some(true) => {
            if model.is_empty() {
                AiStartupAction::DisableNoModel
            } else {
                AiStartupAction::Keep
            }
        },
    }
}

/// What the start-up check does with the selected model.
#[derive(Debug, Clone, Copy, PartialEq, Eq, Structural)]
pub enum ModelStartupAction {
    /// Nothing to do.
    Keep,
    /// The Parakeet model is downloaded: load it now.
    AutoloadParakeet,
    /// The Parakeet model is gone: clear the selection and fall back to Whisper.
    ClearParakeet,
    /// The Whisper model is gone: clear the selection.
    ClearWhisper,
}

/// The start-up check of the selected model. For Parakeet, `parakeet_status`
/// is `None` when its manager is not running, else whether the model is known
/// and downloaded; for Whisper, `whisper_downloaded` is `None` when its
/// manager is not running, else whether the model is among the downloaded ones.
pub fn model_startup_action(
    current_model: &str,
    engine: &str,
    parakeet_status: Option<bool>,
    whisper_downloaded: Option<bool>,
) -> (r: ModelStartupAction)
    ensures
        r == (if current_model@.len() == 0 {
            ModelStartupAction::Keep
        } else if engine@ == "parakeet"@ {
            match parakeet_status {
                None => ModelStartupAction::Keep,
                Some(true) => ModelStartupAction::AutoloadParakeet,
                Some(false) => ModelStartupAction::ClearParakeet,
            }
        } else {
            match whisper_downloaded {
                Some(false) => ModelStartupAction::ClearWhisper,
                _ => ModelStartupAction::Keep,
            }
        }),
{
    if current_model.is_empty() {
        return ModelStartupAction::Keep;
    }
    if crate::text::str_eq(engine, "parakeet") {
        match parakeet_status {
            None => ModelStartupAction::Keep,
            Some(true) => ModelStartupAction::AutoloadParakeet,
            Some(false) => ModelStartupAction::ClearParakeet,
        }
    } else {
        match whisper_downloaded {
            Some(false) => ModelStartupAction::ClearWhisper,
            _ => ModelStartupAction::Keep,
        }
    }
}

/// Sharing restarts at launch when it was on and no remote server is the
/// model source (checked again after the start-up delay).
pub fn sharing_autostart_allowed(settings: &RemoteSettings) -> (b: bool)
    ensures
        b == (settings.server_config.enabled && settings.active_connection_id.is_none()),
{
    settings.server_config.enabled && settings.active_connection_id.is_none()
}

} // verus!
