//! Remote transcription: saved servers and sharing settings.
pub mod settings;
