//! Meeting notes: transcribed segments, summaries and the meeting index.
pub mod index;
pub mod session;
pub mod summary;
pub mod types;

pub use types::{Meeting, MeetingIndexEntry, MeetingSegment, MeetingSummary, Speaker};
