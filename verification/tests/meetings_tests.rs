use voicetypr::meetings::index::{index_entry, remove_index_entries, upsert_index_entry};
use voicetypr::meetings::session::{meeting_title, segment_from_chunk, speaker_event_name, speaker_for_stream};
use voicetypr::meetings::summary::{
    build_raw_markdown, build_summary_prompt, make_segment, strip_code_fences, summary_from_reply,
    SUMMARY_SYSTEM_PROMPT,
};
use voicetypr::meetings::{Meeting, MeetingIndexEntry, MeetingSummary, Speaker};

fn meeting(segments: Vec<voicetypr::meetings::MeetingSegment>) -> Meeting {
    Meeting {
        id: "m1".to_string(),
        title: "Standup".to_string(),
        started_at: "2024-05-01T10:00:00Z".to_string(),
        ended_at: None,
        duration_seconds: 60,
        language: None,
        segments,
        summary: None,
    }
}

#[test]
fn summary_prompt_lists_the_transcript() {
    let m = meeting(vec![
        make_segment("  hello there ".to_string(), Speaker::Me, 0, 1000),
        make_segment("hi".to_string(), Speaker::Them, 1000, 500),
        make_segment("both".to_string(), Speaker::Mixed, 1500, 500),
    ]);
    let p = build_summary_prompt(&m);
    assert_eq!(p, format!("{}\n\nTranscript:\nMe: hello there\nThem: hi\nSpeaker: both", SUMMARY_SYSTEM_PROMPT));
    let empty = build_summary_prompt(&meeting(vec![]));
    assert!(empty.ends_with("Transcript:\n(no transcript captured)"));
    assert!(SUMMARY_SYSTEM_PROMPT.starts_with("You are a meticulous meeting note-taker."));
    assert!(SUMMARY_SYSTEM_PROMPT.contains("\n\"key_points\": string[]   // 3-7 concise bullets"));
}

#[test]
fn code_fences_are_stripped() {
    assert_eq!(strip_code_fences("```json\n{\"a\":1}\n```"), "{\"a\":1}");
    assert_eq!(strip_code_fences("  ```\n\n{}\n``` "), "{}");
    assert_eq!(strip_code_fences("```json no close"), "```json no close");
    assert_eq!(strip_code_fences("  plain  "), "plain");
}

#[test]
fn summaries_from_replies() {
    let parsed = MeetingSummary {
        key_points: vec!["a".to_string()],
        action_items: vec![],
        decisions: vec!["d".to_string()],
        raw: " ".to_string(),
    };
    let s = summary_from_reply(Some(parsed), "ignored");
    assert_eq!(
        s.raw,
        "## Overview\n\n(generated)\n\n## Key Points\n\n- a\n\n## Action Items\n\n- _none_\n\n## Decisions\n\n- d\n\n"
    );
    assert!(s.raw.contains("Key Points"));
    let kept = MeetingSummary { key_points: vec![], action_items: vec![], decisions: vec![], raw: "r".to_string() };
    assert_eq!(summary_from_reply(Some(kept), "x").raw, "r");
    let fallback = summary_from_reply(None, "  Sorry, I can't do that ");
    assert_eq!(fallback.raw, "Sorry, I can't do that");
    assert!(fallback.key_points.is_empty());
    assert_eq!(build_raw_markdown(&MeetingSummary::default()), "## Overview\n\n(generated)\n\n## Key Points\n\n- _none_\n\n## Action Items\n\n- _none_\n\n## Decisions\n\n- _none_\n\n");
}

#[test]
fn session_decisions() {
    assert_eq!(speaker_for_stream("mic"), Speaker::Me);
    assert_eq!(speaker_for_stream("system"), Speaker::Them);
    assert_eq!(speaker_for_stream("other"), Speaker::Mixed);
    assert_eq!(speaker_event_name(Speaker::Them), "them");
    assert!(segment_from_chunk("   ", Speaker::Me, 0, 1).is_none());
    let s = segment_from_chunk(" hi ", Speaker::Me, 5, 6).unwrap();
    assert_eq!((s.text.as_str(), s.started_at_ms, s.duration_ms), ("hi", 5, 6));
    assert_eq!(meeting_title(Some("  ".to_string()), "Meeting on May 01, 10:00".to_string()), "Meeting on May 01, 10:00");
    assert_eq!(meeting_title(Some("Retro".to_string()), "x".to_string()), "Retro");
}

#[test]
fn index_upsert_and_remove() {
    let mut entries: Vec<MeetingIndexEntry> = vec![];
    let mut m = meeting(vec![]);
    upsert_index_entry(&mut entries, index_entry(&m));
    m.id = "m2".to_string();
    upsert_index_entry(&mut entries, index_entry(&m));
    assert_eq!(entries.iter().map(|e| e.id.as_str()).collect::<Vec<_>>(), vec!["m2", "m1"]);
    m.id = "m1".to_string();
    m.title = "Renamed".to_string();
    upsert_index_entry(&mut entries, index_entry(&m));
    assert_eq!(entries.len(), 2);
    assert_eq!(entries[1].title, "Renamed");
    let left = remove_index_entries(&entries, "m1");
    assert_eq!(left.len(), 1);
    assert_eq!(left[0].id, "m2");
}
