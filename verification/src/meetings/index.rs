//! The meeting index: one entry per meeting, newest first.
use vstd::prelude::*;

use super::types::{Meeting, MeetingIndexEntry};
use crate::text::str_eq;

verus! {

/// The index entry of a meeting.
pub fn index_entry(meeting: &Meeting) -> (r: MeetingIndexEntry)
    ensures
        r.id == meeting.id,
        r.title == meeting.title,
        r.started_at == meeting.started_at,
        r.duration_seconds == meeting.duration_seconds,
        r.has_summary == meeting.summary.is_some(),
{
    MeetingIndexEntry {
        id: meeting.id.clone(),
        title: meeting.title.clone(),
        started_at: meeting.started_at.clone(),
        duration_seconds: meeting.duration_seconds,
        has_summary: meeting.summary.is_some(),
    }
}

/// `i` is the first entry with id `id`.
pub open spec fn is_first_entry(entries: Seq<MeetingIndexEntry>, id: Seq<char>, i: int) -> bool {
    &&& 0 <= i < entries.len()
    &&& entries[i].id@ == id
    &&& forall|j: int| 0 <= j < i ==> (#[trigger] entries[j]).id@ != id
}

/// Some entry has id `id`.
pub open spec fn has_entry(entries: Seq<MeetingIndexEntry>, id: Seq<char>) -> bool {
    exists|i: int| 0 <= i < entries.len() && (#[trigger] entries[i]).id@ == id
}

/// Stores an entry: it replaces the first entry with its id, or, for a new
/// meeting, goes first.
pub fn upsert_index_entry(entries: &mut Vec<MeetingIndexEntry>, entry: MeetingIndexEntry)
    ensures
        has_entry(old(entries)@, entry.id@) ==> exists|i: int|
            is_first_entry(old(entries)@, entry.id@, i) && final(entries)@ == old(entries)@.update(
                i,
                entry,
            ),
        !has_entry(old(entries)@, entry.id@) ==> final(entries)@ == seq![entry] + old(entries)@,
{
    let mut i: usize = 0;
    while i < entries.len()
        invariant
            i <= entries@.len(),
            entries@ == old(entries)@,
            forall|j: int| 0 <= j < i ==> (#[trigger] entries@[j]).id@ != entry.id@,
        decreases entries@.len() - i,
    {
        if str_eq(entries[i].id.as_str(), entry.id.as_str()) {
            assert(is_first_entry(old(entries)@, entry.id@, i as int));
            entries.set(i, entry);
            return;
        }
        i = i + 1;
    }
    entries.insert(0, entry);
    assert(entries@ =~= seq![entry] + old(entries)@);
}

/// The entries without those of meeting `id`, in order.
pub open spec fn without_meeting(entries: Seq<MeetingIndexEntry>, id: Seq<char>) -> Seq<
    MeetingIndexEntry,
>
    decreases entries.len(),
{
    if entries.len() == 0 {
        entries
    } else {
        let rest = without_meeting(entries.drop_last(), id);
        if entries.last().id@ == id {
            rest
        } else {
            rest.push(entries.last())
        }
    }
}

/// Drops the entries of meeting `id`.
pub fn remove_index_entries(entries: &Vec<MeetingIndexEntry>, id: &str) -> (r: Vec<MeetingIndexEntry>)
    ensures
        r@ == without_meeting(entries@, id@),
{
    let mut r: Vec<MeetingIndexEntry> = Vec::new();
    let mut i: usize = 0;
    while i < entries.len()
        invariant
            i <= entries@.len(),
            r@ == without_meeting(entries@.take(i as int), id@),
        decreases entries@.len() - i,
    {
        assert(entries@.take(i + 1).drop_last() =~= entries@.take(i as int));
        let e = &entries[i];
        if !str_eq(e.id.as_str(), id) {
            r.push(
                MeetingIndexEntry {
                    id: e.id.clone(),
                    title: e.title.clone(),
                    started_at: e.started_at.clone(),
                    duration_seconds: e.duration_seconds,
                    has_summary: e.has_summary,
                },
            );
        }
        i = i + 1;
    }
    assert(entries@.take(entries@.len() as int) =~= entries@);
    r
}

/// No entry of meeting `id` remains after it is dropped.
pub proof fn lemma_removed_meeting_absent(entries: Seq<MeetingIndexEntry>, id: Seq<char>)
    ensures
        !has_entry(without_meeting(entries, id), id),
    decreases entries.len(),
{
    if entries.len() > 0 {
        lemma_removed_meeting_absent(entries.drop_last(), id);
        let w = without_meeting(entries, id);
        let wr = without_meeting(entries.drop_last(), id);
        if has_entry(w, id) {
            let k = choose|k: int| 0 <= k < w.len() && (#[trigger] w[k]).id@ == id;
            if entries.last().id@ != id && k == w.len() - 1 {
            } else {
                assert(wr[k] == w[k]);
            }
        }
    }
}

} // verus!
