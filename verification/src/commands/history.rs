//! The transcription history: entries keyed by RFC 3339 timestamps, listed
//! newest first, with a guard against saving the same text twice.
use vstd::prelude::*;

use crate::sorting::{is_desc_order, order_by_text_desc, texts};
use crate::text::{lex_less, str_eq, str_less};

verus! {

/// How many entries the history lists when no limit is given.
pub const DEFAULT_HISTORY_LIMIT: usize = 50;

/// The text stored for a transcription that failed on a remote server.
pub const FAILED_REMOTE_TEXT: &'static str = "Remote server unreachable - re-transcribe to get text";

/// How close in time two saves of the same text must be to count as one.
pub const DUPLICATE_WINDOW_SECS: i64 = 2;

/// `i` holds the largest key, and no earlier key is as large.
pub open spec fn is_latest_at(keys: Seq<String>, i: int) -> bool {
    &&& 0 <= i < keys.len()
    &&& forall|j: int| 0 <= j < keys.len() ==> !lex_less(keys[i]@, (#[trigger] keys[j])@)
    &&& forall|j: int| 0 <= j < i ==> lex_less((#[trigger] keys[j])@, keys[i]@)
}

/// The position of the most recent entry: the largest key, the first of
/// equal ones.
pub fn latest_entry(keys: &Vec<String>) -> (r: Option<usize>)
    ensures
        match r {
            Some(i) => is_latest_at(keys@, i as int),
            None => keys@.len() == 0,
        },
{
    if keys.len() == 0 {
        return None;
    }
    let mut best: usize = 0;
    let mut k: usize = 1;
    while k < keys.len()
        invariant
            1 <= k <= keys@.len(),
            best < k,
            forall|j: int| 0 <= j < k ==> !lex_less(keys@[best as int]@, (#[trigger] keys@[j])@),
            forall|j: int| 0 <= j < best ==> lex_less((#[trigger] keys@[j])@, keys@[best as int]@),
        decreases keys@.len() - k,
    {
        if str_less(keys[best].as_str(), keys[k].as_str()) {
            proof {
                let nb = keys@[k as int]@;
                assert forall|j: int| 0 <= j < k + 1 implies !lex_less(
                    nb,
                    (#[trigger] keys@[j])@,
                ) by {
                    crate::text::lemma_lex_less_total(keys@[best as int]@, nb);
                    if j < k {
                        crate::text::lemma_lex_less_total(keys@[j]@, nb);
                        if lex_less(nb, keys@[j]@) {
                            crate::text::lemma_lex_less_transitive(
                                keys@[best as int]@,
                                nb,
                                keys@[j]@,
                            );
                        }
                    } else {
                        crate::text::lemma_lex_less_total(nb, nb);
                    }
                }
                assert forall|j: int| 0 <= j < k implies lex_less(
                    (#[trigger] keys@[j])@,
                    nb,
                ) by {
                    crate::text::lemma_lex_less_total(keys@[j]@, keys@[best as int]@);
                    if lex_less(keys@[j]@, keys@[best as int]@) {
                        crate::text::lemma_lex_less_transitive(
                            keys@[j]@,
                            keys@[best as int]@,
                            nb,
                        );
                    }
                }
            }
            best = k;
        }
        k = k + 1;
    }
    Some(best)
}

/// A save repeats the latest entry: the same text and model, saved at most
/// two seconds apart (`seconds_apart` is `None` when the latest entry's time
/// is unknown).
pub open spec fn repeats_latest(
    latest_text: Option<Seq<char>>,
    latest_model: Option<Seq<char>>,
    seconds_apart: Option<i64>,
    text: Seq<char>,
    model: Seq<char>,
) -> bool {
    &&& latest_text == Some(text)
    &&& latest_model == Some(model)
    &&& (seconds_apart matches Some(s) && s != i64::MIN && -DUPLICATE_WINDOW_SECS <= s
        <= DUPLICATE_WINDOW_SECS)
}

/// Whether saving `text` with `model` would repeat the latest entry.
pub fn is_duplicate_save(
    latest_text: Option<&str>,
    latest_model: Option<&str>,
    seconds_apart: Option<i64>,
    text: &str,
    model: &str,
) -> (b: bool)
    ensures
        b == repeats_latest(
            match latest_text {
                Some(t) => Some(t@),
                None => None,
            },
            match latest_model {
                Some(m) => Some(m@),
                None => None,
            },
            seconds_apart,
            text@,
            model@,
        ),
{
    let same_text = match latest_text {
        Some(t) => str_eq(t, text),
        None => false,
    };
    let same_model = match latest_model {
        Some(m) => str_eq(m, model),
        None => false,
    };
    let within = match seconds_apart {
        Some(s) => s != i64::MIN && -DUPLICATE_WINDOW_SECS <= s && s <= DUPLICATE_WINDOW_SECS,
        None => false,
    };
    same_text && same_model && within
}

/// The positions of the entries to list: newest first (by key, from the
/// largest down), at most `limit` of them (50 by default).
pub fn history_order(keys: &Vec<String>, limit: Option<usize>) -> (r: Vec<usize>)
    ensures
        exists|order: Seq<usize>|
            is_desc_order(texts(keys@), order) && r@ == order.take(
                if order.len() < (match limit {
                    Some(l) => l,
                    None => DEFAULT_HISTORY_LIMIT,
                }) {
                    order.len() as int
                } else {
                    (match limit {
                        Some(l) => l,
                        None => DEFAULT_HISTORY_LIMIT,
                    }) as int
                },
            ),
{
    let order = order_by_text_desc(keys);
    let n = match limit {
        Some(l) => l,
        None => DEFAULT_HISTORY_LIMIT,
    };
    let mut r: Vec<usize> = Vec::new();
    let mut p: usize = 0;
    while p < order.len() && p < n
        invariant
            p <= order@.len(),
            p <= n,
            r@ == order@.take(p as int),
        decreases order@.len() - p,
    {
        r.push(order[p]);
        assert(r@ =~= order@.take(p + 1));
        p = p + 1;
    }
    r
}

/// The status of a re-transcription: the given one, else `completed`.
pub fn effective_status(status: Option<String>) -> (r: String)
    ensures
        r@ == (match status {
            Some(s) => s@,
            None => "completed"@,
        }),
{
    match status {
        Some(s) => s,
        None => "completed".to_owned(),
    }
}


// ---------------------------------------------------------------------------
// Retention of transcriptions
// ---------------------------------------------------------------------------

/// The instant `chrono::DateTime::parse_from_rfc3339` reads from `s`, as
/// seconds since the Unix epoch and nanoseconds within the second, or `None`
/// when `s` is not an RFC 3339 date-time.
pub uninterp spec fn parsed_rfc3339(s: Seq<char>) -> Option<(i64, u32)>;

/// Calls `chrono::DateTime::parse_from_rfc3339` and hands on the instant it
/// read as `timestamp()` and `timestamp_subsec_nanos()`. The contract names
/// the result: it is a function of the text alone.
#[verifier::external_body]
fn parse_rfc3339(s: &str) -> (r: Option<(i64, u32)>)
    ensures
        r == parsed_rfc3339(s@),
{
    chrono::DateTime::parse_from_rfc3339(s).ok().map(|t| (t.timestamp(), t.timestamp_subsec_nanos()))
}

/// Instant `a` (seconds, nanoseconds) comes before instant `b`.
pub open spec fn instant_before(a: (i64, u32), b: (i64, u32)) -> bool {
    a.0 < b.0 || (a.0 == b.0 && a.1 < b.1)
}

/// Whether an entry whose key reads as `parsed` is older than `cutoff`; a key
/// that is no date is kept.
pub fn is_expired(parsed: Option<(i64, u32)>, cutoff: (i64, u32)) -> (b: bool)
    ensures
        b == (parsed matches Some(t) && instant_before(t, cutoff)),
{
    match parsed {
        Some(t) => t.0 < cutoff.0 || (t.0 == cutoff.0 && t.1 < cutoff.1),
        None => false,
    }
}

/// The keys of the entries older than `cutoff`, in their order.
pub open spec fn expired_keys(keys: Seq<String>, cutoff: (i64, u32)) -> Seq<Seq<char>>
    decreases keys.len(),
{
    if keys.len() == 0 {
        Seq::empty()
    } else {
        let rest = expired_keys(keys.drop_last(), cutoff);
        let k = keys.last()@;
        if parsed_rfc3339(k) matches Some(t) && instant_before(t, cutoff) {
            rest.push(k)
        } else {
            rest
        }
    }
}

/// The history entries to delete: those whose key is an RFC 3339 time
/// before `cutoff`.
pub fn transcriptions_to_remove(keys: &Vec<String>, cutoff: (i64, u32)) -> (r: Vec<String>)
    ensures
        texts(r@) == expired_keys(keys@, cutoff),
{
    let mut r: Vec<String> = Vec::new();
    let mut i: usize = 0;
    while i < keys.len()
        invariant
            i <= keys@.len(),
            texts(r@) == expired_keys(keys@.take(i as int), cutoff),
        decreases keys@.len() - i,
    {
        assert(keys@.take(i + 1).drop_last() =~= keys@.take(i as int));
        let parsed = parse_rfc3339(keys[i].as_str());
        if is_expired(parsed, cutoff) {
            let ghost before = r@;
            r.push(keys[i].clone());
            assert(texts(r@) =~= texts(before).push(keys@[i as int]@));
        }
        i = i + 1;
    }
    assert(keys@.take(keys@.len() as int) =~= keys@);
    r
}

} // verus!
