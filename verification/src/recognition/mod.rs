//! Which speech-recognition engines can run, and which model to pick.
pub mod model_selection;

pub use model_selection::RecognitionAvailabilitySnapshot;
