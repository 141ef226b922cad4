//! Inserting a transcript at the cursor through the clipboard: the steps
//! between copying the text, pasting it and putting the user's clipboard
//! back. The clipboard and the key presses are the application's.
use vstd::prelude::*;

use crate::text::push_str;

verus! {

/// Why a second insertion is refused while one runs.
pub const INSERTION_BUSY_MESSAGE: &'static str = "Text insertion already in progress";

/// The error when the text was copied but may not be pasted.
pub const NO_ACCESSIBILITY_MESSAGE: &'static str =
    "No accessibility permission - text copied to clipboard. Please paste manually or grant accessibility permission.";

/// The toast when neither way of pasting worked.
pub const PASTE_FAILED_TOAST: &'static str = "Paste failed - copied to clipboard";

/// How long that toast shows, in milliseconds.
pub const PASTE_FAILED_TOAST_MS: u64 = 1500;

/// An insertion may start only when none is running.
pub fn begin_insertion(already_inserting: bool) -> (r: Result<(), String>)
    ensures
        r is Ok <==> !already_inserting,
        r matches Err(m) ==> m@ == INSERTION_BUSY_MESSAGE@,
{
    if already_inserting {
        Err(INSERTION_BUSY_MESSAGE.to_owned())
    } else {
        Ok(())
    }
}

/// The user's clipboard text is kept aside, to be put back after the paste,
/// unless the transcript is to stay in the clipboard.
pub fn should_capture_previous(keep_transcription_in_clipboard: bool) -> (b: bool)
    ensures
        b == !keep_transcription_in_clipboard,
{
    !keep_transcription_in_clipboard
}

/// After the transcript was put in the clipboard (`set_error` when that
/// failed): `Ok` means paste now; otherwise the insertion ends with the error.
pub fn after_clipboard_set(set_error: Option<String>, has_accessibility_permission: bool) -> (r:
    Result<(), String>)
    ensures
        match set_error {
            Some(e) => r matches Err(m) && m@ == "Failed to set clipboard: "@ + e@,
            None => if has_accessibility_permission {
                r is Ok
            } else {
                r matches Err(m) && m@ == NO_ACCESSIBILITY_MESSAGE@
            },
        },
{
    match set_error {
        Some(e) => {
            let mut m = "Failed to set clipboard: ".to_owned();
            push_str(&mut m, e.as_str());
            Err(m)
        },
        None => {
            if has_accessibility_permission {
                Ok(())
            } else {
                Err(NO_ACCESSIBILITY_MESSAGE.to_owned())
            }
        },
    }
}

/// Whether the fallback way of pasting is tried: only when the first failed.
pub fn needs_paste_fallback(primary_pasted: bool) -> (b: bool)
    ensures
        b == !primary_pasted,
{
    !primary_pasted
}

/// The toast after pasting: when neither way worked the user is told that
/// the text waits in the clipboard (the insertion itself still succeeds).
pub fn paste_outcome_toast(primary_pasted: bool, fallback_pasted: bool) -> (r: Option<&'static str>)
    ensures
        r is Some <==> (!primary_pasted && !fallback_pasted),
        r matches Some(t) ==> t@ == PASTE_FAILED_TOAST@,
{
    if !primary_pasted && !fallback_pasted {
        Some(PASTE_FAILED_TOAST)
    } else {
        None
    }
}

/// What is put back in the clipboard at the end: the user's earlier text,
/// when it was kept aside and the insertion succeeded.
pub fn clipboard_to_restore(
    keep_transcription_in_clipboard: bool,
    insertion_succeeded: bool,
    previous: Option<String>,
) -> (r: Option<String>)
    ensures
        r == (if !keep_transcription_in_clipboard && insertion_succeeded {
            previous
        } else {
            None
        }),
{
    if !keep_transcription_in_clipboard && insertion_succeeded {
        previous
    } else {
        None
    }
}

} // verus!
