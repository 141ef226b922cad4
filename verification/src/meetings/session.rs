//! The decisions of a meeting session: who spoke a chunk, which chunks become
//! segments, and the meeting's title.
use vstd::prelude::*;

use super::types::{same_segment, Meeting, MeetingSegment, Speaker};
use crate::text::{is_blank, str_eq, trim, trim_str};

verus! {

/// What a meeting is started with.
#[derive(Debug, Clone)]
pub struct StartParams {
    pub title: String,
    pub language: Option<String>,
    /// The Whisper model to transcribe with; the first downloaded one when absent.
    pub model_path: Option<String>,
}

/// The speaker of an audio stream: the microphone is me, system audio is
/// them, anything else is mixed.
pub fn speaker_for_stream(stream: &str) -> (r: Speaker)
    ensures
        r == (if stream@ == "mic"@ {
            Speaker::Me
        } else if stream@ == "system"@ {
            Speaker::Them
        } else {
            Speaker::Mixed
        }),
{
    if str_eq(stream, "mic") {
        Speaker::Me
    } else if str_eq(stream, "system") {
        Speaker::Them
    } else {
        Speaker::Mixed
    }
}

/// The name of a speaker in a segment event.
pub fn speaker_event_name(s: Speaker) -> (r: &'static str)
    ensures
        r@ == (match s {
            Speaker::Me => "me"@,
            Speaker::Them => "them"@,
            Speaker::Mixed => "mixed"@,
        }),
{
    match s {
        Speaker::Me => "me",
        Speaker::Them => "them",
        Speaker::Mixed => "mixed",
    }
}

/// The segment a transcribed chunk becomes: its trimmed text, or nothing
/// when the text is blank.
pub fn segment_from_chunk(text: &str, speaker: Speaker, started_at_ms: u64, duration_ms: u64) -> (r:
    Option<MeetingSegment>)
    ensures
        trim(text@).len() == 0 ==> r.is_none(),
        trim(text@).len() > 0 ==> (r matches Some(s) && s.text@ == trim(text@) && s.speaker
            == speaker && s.started_at_ms == started_at_ms && s.duration_ms == duration_ms),
{
    if is_blank(text) {
        return None;
    }
    Some(MeetingSegment { speaker, text: trim_str(text), started_at_ms, duration_ms })
}

/// The title of a new meeting: the given one unless blank, else `default_title`.
pub fn meeting_title(title: Option<String>, default_title: String) -> (r: String)
    ensures
        r == (match title {
            Some(t) => if trim(t@).len() > 0 {
                t
            } else {
                default_title
            },
            None => default_title,
        }),
{
    match title {
        Some(t) => {
            if is_blank(t.as_str()) {
                default_title
            } else {
                t
            }
        },
        None => default_title,
    }
}


/// A meeting being recorded. The process that captures its audio belongs to
/// the application; the library holds what the meeting's record is made of.
#[derive(Debug)]
pub struct ActiveMeeting {
    pub id: String,
    /// When the meeting started, as RFC 3339 text.
    pub started_at: String,
    /// When the meeting started, as seconds and nanoseconds since the epoch.
    pub started_at_instant: (i64, u32),
    pub recordings_dir: String,
    pub segments: Vec<MeetingSegment>,
    pub language: Option<String>,
    pub title: String,
}

/// The whole seconds from `start` to `now` (both as seconds and nanoseconds
/// since the epoch); none when `now` is not later.
pub open spec fn elapsed_seconds(start: (i64, u32), now: (i64, u32)) -> int {
    let d = (now.0 - start.0) * 1_000_000_000 + now.1 - start.1;
    if d <= 0 {
        0
    } else {
        d / 1_000_000_000
    }
}

/// The text of an optional string.
pub open spec fn opt_text(o: Option<String>) -> Option<Seq<char>> {
    match o {
        Some(s) => Some(s@),
        None => None,
    }
}

/// `a` copies the segments `b`, one for one.
pub open spec fn same_segments(a: Seq<MeetingSegment>, b: Seq<MeetingSegment>) -> bool {
    a.len() == b.len() && forall|i: int| 0 <= i < a.len() ==> same_segment(#[trigger] a[i], b[i])
}

/// The whole seconds from `start` to `now`, none when `now` is not later.
pub fn elapsed_secs(start: (i64, u32), now: (i64, u32)) -> (r: u64)
    requires
        elapsed_seconds(start, now) <= u64::MAX,
    ensures
        r == elapsed_seconds(start, now),
{
    let ds: i128 = now.0 as i128 - start.0 as i128;
    assert(-0x1_0000_0000_0000_0000 <= ds <= 0x1_0000_0000_0000_0000);
    assert(-0x1_0000_0000_0000_0000 * 1_000_000_000 <= ds * 1_000_000_000 <= 0x1_0000_0000_0000_0000
        * 1_000_000_000) by (nonlinear_arith)
        requires
            -0x1_0000_0000_0000_0000 <= ds <= 0x1_0000_0000_0000_0000,
    ;
    let d: i128 = ds * 1_000_000_000 + now.1 as i128 - start.1 as i128;
    if d <= 0 {
        0
    } else {
        (d / 1_000_000_000) as u64
    }
}

impl ActiveMeeting {
    /// The meeting's record as it stands `now`: not ended, lasting the whole
    /// seconds since it started, with no summary.
    pub fn snapshot(&self, now: (i64, u32)) -> (m: Meeting)
        requires
            elapsed_seconds(self.started_at_instant, now) <= u64::MAX,
        ensures
            m.id@ == self.id@,
            m.title@ == self.title@,
            m.started_at@ == self.started_at@,
            m.ended_at is None,
            m.duration_seconds == elapsed_seconds(self.started_at_instant, now),
            opt_text(m.language) == opt_text(self.language),
            same_segments(m.segments@, self.segments@),
            m.summary is None,
    {
        let mut segments: Vec<MeetingSegment> = Vec::new();
        let mut i: usize = 0;
        while i < self.segments.len()
            invariant
                i <= self.segments@.len(),
                segments@.len() == i,
                forall|j: int| 0 <= j < i ==> same_segment(#[trigger] segments@[j], self.segments@[j]),
            decreases self.segments@.len() - i,
        {
            segments.push(self.segments[i].duplicate());
            i = i + 1;
        }
        let language = match &self.language {
            Some(l) => Some(l.clone()),
            None => None,
        };
        Meeting {
            id: self.id.clone(),
            title: self.title.clone(),
            started_at: self.started_at.clone(),
            ended_at: None,
            duration_seconds: elapsed_secs(self.started_at_instant, now),
            language,
            segments,
            summary: None,
        }
    }

    /// The final record of the meeting, stopped `now` (`ended_at` is the
    /// same time as RFC 3339 text).
    pub fn finished(&self, now: (i64, u32), ended_at: String) -> (m: Meeting)
        requires
            elapsed_seconds(self.started_at_instant, now) <= u64::MAX,
        ensures
            m.id@ == self.id@,
            m.title@ == self.title@,
            m.started_at@ == self.started_at@,
            opt_text(m.ended_at) == Some(ended_at@),
            m.duration_seconds == elapsed_seconds(self.started_at_instant, now),
            opt_text(m.language) == opt_text(self.language),
            same_segments(m.segments@, self.segments@),
            m.summary is None,
    {
        let mut m = self.snapshot(now);
        m.ended_at = Some(ended_at);
        m
    }
}

} // verus!
