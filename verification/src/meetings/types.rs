//! The records a meeting is stored as.
use vstd::prelude::*;

verus! {

/// Who spoke a segment.
#[derive(Debug, Clone, Copy, PartialEq, Eq, Structural)]
pub enum Speaker {
    Me,
    Them,
    Mixed,
}

/// A transcribed piece of a meeting.
#[derive(Debug, Clone)]
pub struct MeetingSegment {
    pub speaker: Speaker,
    pub text: String,
    pub started_at_ms: u64,
    pub duration_ms: u64,
}

/// Two segments hold the same speaker, text and times.
pub open spec fn same_segment(a: MeetingSegment, b: MeetingSegment) -> bool {
    &&& a.speaker == b.speaker
    &&& a.text@ == b.text@
    &&& a.started_at_ms == b.started_at_ms
    &&& a.duration_ms == b.duration_ms
}

impl MeetingSegment {
    /// A copy of the segment.
    pub fn duplicate(&self) -> (r: MeetingSegment)
        ensures
            same_segment(r, *self),
    {
        MeetingSegment {
            speaker: self.speaker,
            text: self.text.clone(),
            started_at_ms: self.started_at_ms,
            duration_ms: self.duration_ms,
        }
    }
}

/// The summary of a meeting.
#[derive(Debug, Clone)]
pub struct MeetingSummary {
    pub key_points: Vec<String>,
    pub action_items: Vec<String>,
    pub decisions: Vec<String>,
    pub raw: String,
}

impl Default for MeetingSummary {
    /// An empty summary.
    fn default() -> (r: MeetingSummary)
        ensures
            r.key_points@.len() == 0,
            r.action_items@.len() == 0,
            r.decisions@.len() == 0,
            r.raw@.len() == 0,
    {
        MeetingSummary {
            key_points: Vec::new(),
            action_items: Vec::new(),
            decisions: Vec::new(),
            raw: String::new(),
        }
    }
}

/// A meeting.
#[derive(Debug, Clone)]
pub struct Meeting {
    pub id: String,
    pub title: String,
    pub started_at: String,
    pub ended_at: Option<String>,
    pub duration_seconds: u64,
    pub language: Option<String>,
    pub segments: Vec<MeetingSegment>,
    pub summary: Option<MeetingSummary>,
}

/// A meeting as the index lists it.
#[derive(Debug, Clone)]
pub struct MeetingIndexEntry {
    pub id: String,
    pub title: String,
    pub started_at: String,
    pub duration_seconds: u64,
    pub has_summary: bool,
}

} // verus!
