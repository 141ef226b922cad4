//! The prompt that asks for a meeting summary, and the summary built from
//! the reply.
use vstd::prelude::*;

use super::types::{Meeting, MeetingSegment, MeetingSummary, Speaker};
use crate::text::{
    chars_of, chars_occur_at, has_prefix, is_blank, occurs_at, push_chars, push_str, slice_chars,
    string_from, trim, trim_chars, trim_str,
};

verus! {

/// What the summary prompt asks for.
pub const SUMMARY_SYSTEM_PROMPT: &'static str = "You are a meticulous meeting note-taker. Read the transcript and produce ONLY a single valid JSON object — no preface, no fences, no commentary — that strictly conforms to the schema below.\n\nSchema (all keys required):\n{\n\"key_points\": string[]   // 3-7 concise bullets covering main topics\n\"action_items\": string[] // tasks; include the owner if mentioned\n\"decisions\": string[]    // concrete decisions reached, if any\n\"raw\": string             // full markdown summary; sections in order: ## Overview, ## Key Points, ## Action Items, ## Decisions\n}\n\nRules:\n- Use empty arrays [] when a category has no entries.\n- Be specific. Quote concrete commitments verbatim.\n- Do NOT invent attendees, deadlines, or facts not in the transcript.\n- Preserve speaker labels (Me / Them) when relevant.";

/// The transcript placeholder when nothing was captured.
pub const NO_TRANSCRIPT: &'static str = "(no transcript captured)";

/// The label of a speaker in the transcript.
pub open spec fn speaker_label(s: Speaker) -> Seq<char> {
    match s {
        Speaker::Me => "Me"@,
        Speaker::Them => "Them"@,
        Speaker::Mixed => "Speaker"@,
    }
}

/// A transcript line: `speaker: text`, the text trimmed.
pub open spec fn segment_line(s: MeetingSegment) -> Seq<char> {
    speaker_label(s.speaker) + ": "@ + trim(s.text@) + "\n"@
}

/// The transcript lines of the segments, in order.
pub open spec fn transcript_of(segs: Seq<MeetingSegment>) -> Seq<char>
    decreases segs.len(),
{
    if segs.len() == 0 {
        Seq::empty()
    } else {
        transcript_of(segs.drop_last()) + segment_line(segs.last())
    }
}

/// The summary prompt: the instructions, then the trimmed transcript, or the
/// placeholder when the transcript is blank.
pub open spec fn summary_prompt(segs: Seq<MeetingSegment>) -> Seq<char> {
    let t = transcript_of(segs);
    let body = if trim(t).len() == 0 {
        trim(t + NO_TRANSCRIPT@)
    } else {
        trim(t)
    };
    SUMMARY_SYSTEM_PROMPT@ + "\n\nTranscript:\n"@ + body
}

/// The label of a speaker.
fn speaker_text(s: Speaker) -> (r: &'static str)
    ensures
        r@ == speaker_label(s),
{
    match s {
        Speaker::Me => "Me",
        Speaker::Them => "Them",
        Speaker::Mixed => "Speaker",
    }
}

/// The prompt that asks for a summary of the meeting.
pub fn build_summary_prompt(meeting: &Meeting) -> (r: String)
    ensures
        r@ == summary_prompt(meeting.segments@),
{
    let segs = &meeting.segments;
    let mut transcript = String::new();
    let mut i: usize = 0;
    while i < segs.len()
        invariant
            i <= segs@.len(),
            transcript@ == transcript_of(segs@.take(i as int)),
        decreases segs@.len() - i,
    {
        let seg = &segs[i];
        push_str(&mut transcript, speaker_text(seg.speaker));
        push_str(&mut transcript, ": ");
        let t = trim_str(seg.text.as_str());
        push_str(&mut transcript, t.as_str());
        push_str(&mut transcript, "\n");
        assert(segs@.take(i + 1).drop_last() =~= segs@.take(i as int));
        i = i + 1;
    }
    assert(segs@.take(segs@.len() as int) =~= segs@);
    if is_blank(transcript.as_str()) {
        push_str(&mut transcript, NO_TRANSCRIPT);
    }
    let body = trim_str(transcript.as_str());
    let mut r = SUMMARY_SYSTEM_PROMPT.to_owned();
    push_str(&mut r, "\n\nTranscript:\n");
    push_str(&mut r, body.as_str());
    r
}

/// `s` without its leading line feeds.
pub open spec fn skip_newlines(s: Seq<char>) -> Seq<char>
    decreases s.len(),
{
    if s.len() > 0 && s[0] == '\n' {
        skip_newlines(s.drop_first())
    } else {
        s
    }
}

/// `i` is the last position where `p` occurs in `s`.
pub open spec fn is_last_occurrence(s: Seq<char>, p: Seq<char>, i: int) -> bool {
    occurs_at(s, p, i) && forall|j: int| i < j ==> !#[trigger] occurs_at(s, p, j)
}

/// The last position where `p` occurs in `s`, or -1.
pub open spec fn last_occurrence(s: Seq<char>, p: Seq<char>) -> int {
    if exists|i: int| is_last_occurrence(s, p, i) {
        choose|i: int| is_last_occurrence(s, p, i)
    } else {
        -1
    }
}

/// The body of `t` between an opening `fence` (line feeds after it dropped)
/// and the last closing fence, trimmed; `None` without both fences.
pub open spec fn fenced_body(t: Seq<char>, fence: Seq<char>) -> Option<Seq<char>> {
    if has_prefix(t, fence) {
        let rest = skip_newlines(t.subrange(fence.len() as int, t.len() as int));
        let e = last_occurrence(rest, "```"@);
        if e >= 0 {
            Some(trim(rest.subrange(0, e)))
        } else {
            None
        }
    } else {
        None
    }
}

/// A reply without a Markdown code fence around it (a `json` fence first,
/// then a bare one), trimmed.
pub open spec fn without_code_fences(s: Seq<char>) -> Seq<char> {
    let t = trim(s);
    match fenced_body(t, "```json"@) {
        Some(b) => b,
        None => match fenced_body(t, "```"@) {
            Some(b) => b,
            None => t,
        },
    }
}

/// The position after the leading line feeds of `v` from `start`.
fn skip_newlines_from(v: &Vec<char>, start: usize) -> (k: usize)
    requires
        start <= v@.len(),
    ensures
        start <= k <= v@.len(),
        skip_newlines(v@.subrange(start as int, v@.len() as int)) == v@.subrange(
            k as int,
            v@.len() as int,
        ),
{
    let mut k = start;
    while k < v.len() && v[k] == '\n'
        invariant
            start <= k <= v@.len(),
            skip_newlines(v@.subrange(start as int, v@.len() as int)) == skip_newlines(
                v@.subrange(k as int, v@.len() as int),
            ),
        decreases v@.len() - k,
    {
        assert(v@.subrange(k as int, v@.len() as int).drop_first() =~= v@.subrange(
            k + 1,
            v@.len() as int,
        ));
        k = k + 1;
    }
    k
}

/// The last position where `p` occurs in `v`, if any.
fn find_last(v: &[char], p: &[char]) -> (r: Option<usize>)
    ensures
        match r {
            Some(i) => is_last_occurrence(v@, p@, i as int) && last_occurrence(v@, p@) == i,
            None => last_occurrence(v@, p@) == -1 && forall|j: int| !#[trigger] occurs_at(v@, p@, j),
        },
{
    if p.len() > v.len() {
        assert forall|j: int| !#[trigger] occurs_at(v@, p@, j) by {}
        return None;
    }
    let top: usize = v.len() - p.len();
    let mut i: usize = top;
    loop
        invariant
            p@.len() <= v@.len(),
            i <= top,
            top == v@.len() - p@.len(),
            forall|j: int| i < j ==> !#[trigger] occurs_at(v@, p@, j),
        decreases i,
    {
        if chars_occur_at(v, p, i) {
            proof {
                assert(is_last_occurrence(v@, p@, i as int));
                let k = choose|k: int| is_last_occurrence(v@, p@, k);
                if k < i {
                    assert(occurs_at(v@, p@, i as int));
                }
                if k > i {
                    assert(occurs_at(v@, p@, k));
                }
            }
            return Some(i);
        }
        if i == 0 {
            assert forall|j: int| !#[trigger] occurs_at(v@, p@, j) by {
                if j == 0 {
                    assert(!occurs_at(v@, p@, 0));
                }
            }
            return None;
        }
        i = i - 1;
    }
}

/// The body between `fence` and the last closing fence, if `t` has both.
fn fenced(t: &Vec<char>, fence: &str) -> (r: Option<Vec<char>>)
    ensures
        match r {
            Some(b) => fenced_body(t@, fence@) == Some(b@),
            None => fenced_body(t@, fence@).is_none(),
        },
{
    let f = chars_of(fence);
    if !crate::text::chars_start_with(t.as_slice(), f.as_slice()) {
        return None;
    }
    let k = skip_newlines_from(t, f.len());
    let rest = slice_chars(t.as_slice(), k, t.len());
    let close = chars_of("```");
    match find_last(rest.as_slice(), close.as_slice()) {
        Some(e) => {
            let body = slice_chars(rest.as_slice(), 0, e);
            let b = trim_chars(body.as_slice());
            Some(b)
        },
        None => {
            proof {
                if exists|i: int| is_last_occurrence(rest@, "```"@, i) {
                    let w = choose|i: int| is_last_occurrence(rest@, "```"@, i);
                    assert(occurs_at(rest@, "```"@, w));
                }
            }
            None
        },
    }
}

/// A reply without a Markdown code fence around it.
pub fn strip_code_fences(s: &str) -> (r: String)
    ensures
        r@ == without_code_fences(s@),
{
    let v = chars_of(s);
    let t = trim_chars(v.as_slice());
    match fenced(&t, "```json") {
        Some(b) => string_from(b.as_slice()),
        None => match fenced(&t, "```") {
            Some(b) => string_from(b.as_slice()),
            None => string_from(t.as_slice()),
        },
    }
}

/// `- item` lines for each item.
pub open spec fn bullet_lines(items: Seq<String>) -> Seq<char>
    decreases items.len(),
{
    if items.len() == 0 {
        Seq::empty()
    } else {
        bullet_lines(items.drop_last()) + "- "@ + items.last()@ + "\n"@
    }
}

/// A section: its heading, its items (or `- _none_`), and a blank line.
pub open spec fn section(title: Seq<char>, items: Seq<String>) -> Seq<char> {
    "## "@ + title + "\n\n"@ + (if items.len() == 0 {
        "- _none_\n"@
    } else {
        bullet_lines(items)
    }) + "\n"@
}

/// The Markdown summary built from the structured fields.
pub open spec fn raw_markdown(s: MeetingSummary) -> Seq<char> {
    "## Overview\n\n(generated)\n\n"@ + section("Key Points"@, s.key_points@) + section(
        "Action Items"@,
        s.action_items@,
    ) + section("Decisions"@, s.decisions@)
}

/// Appends a section to `md`.
fn push_section(md: &mut String, title: &str, items: &Vec<String>)
    ensures
        final(md)@ == old(md)@ + section(title@, items@),
{
    push_str(md, "## ");
    push_str(md, title);
    push_str(md, "\n\n");
    let ghost start = md@;
    let mut i: usize = 0;
    while i < items.len()
        invariant
            i <= items@.len(),
            md@ == start + bullet_lines(items@.take(i as int)),
        decreases items@.len() - i,
    {
        push_str(md, "- ");
        push_str(md, items[i].as_str());
        push_str(md, "\n");
        assert(items@.take(i + 1).drop_last() =~= items@.take(i as int));
        i = i + 1;
    }
    assert(items@.take(items@.len() as int) =~= items@);
    if items.len() == 0 {
        push_str(md, "- _none_\n");
        proof {
            assert(bullet_lines(items@) =~= Seq::<char>::empty());
        }
    }
    push_str(md, "\n");
}

/// The Markdown summary built from the structured fields.
pub fn build_raw_markdown(s: &MeetingSummary) -> (r: String)
    ensures
        r@ == raw_markdown(*s),
{
    let mut md = "## Overview\n\n".to_owned();
    push_str(&mut md, "(generated)\n\n");
    push_section(&mut md, "Key Points", &s.key_points);
    push_section(&mut md, "Action Items", &s.action_items);
    push_section(&mut md, "Decisions", &s.decisions);
    proof {
        reveal_strlit("## Overview\n\n");
        reveal_strlit("(generated)\n\n");
        reveal_strlit("## Overview\n\n(generated)\n\n");
    }
    md
}

/// The summary from a reply: the structured summary parsed from the reply
/// (without code fences), its Markdown built when the reply left it blank; or,
/// when the reply did not parse, the whole reply, trimmed, as the Markdown.
pub fn summary_from_reply(parsed: Option<MeetingSummary>, response: &str) -> (r: MeetingSummary)
    ensures
        match parsed {
            Some(p) => if trim(p.raw@).len() == 0 {
                r.key_points == p.key_points && r.action_items == p.action_items && r.decisions
                    == p.decisions && r.raw@ == raw_markdown(p)
            } else {
                r == p
            },
            None => r.key_points@.len() == 0 && r.action_items@.len() == 0 && r.decisions@.len()
                == 0 && r.raw@ == trim(response@),
        },
{
    match parsed {
        Some(p) => {
            if is_blank(p.raw.as_str()) {
                let raw = build_raw_markdown(&p);
                MeetingSummary { raw, ..p }
            } else {
                p
            }
        },
        None => MeetingSummary {
            key_points: Vec::new(),
            action_items: Vec::new(),
            decisions: Vec::new(),
            raw: trim_str(response),
        },
    }
}

/// A segment of the meeting.
pub fn make_segment(text: String, speaker: Speaker, started_at_ms: u64, duration_ms: u64) -> (r:
    MeetingSegment)
    ensures
        r.text == text,
        r.speaker == speaker,
        r.started_at_ms == started_at_ms,
        r.duration_ms == duration_ms,
{
    MeetingSegment { speaker, text, started_at_ms, duration_ms }
}

} // verus!
