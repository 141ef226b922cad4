//! Global shortcuts while recording: toggle, push-to-talk and the ESC
//! double-tap, as steps from a state and an event to an action.
pub mod escape_handler;
pub mod hotkeys;
