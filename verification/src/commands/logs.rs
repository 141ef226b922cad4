//! Log files: which are old, which is newest, and what of the newest goes
//! into a bug report (its tail, with secrets and personal paths redacted).
use vstd::prelude::*;

use crate::text::{has_prefix, has_suffix, lex_less, push_str, str_ends_with, str_less, str_starts_with};

verus! {

/// The start of every log file name.
pub const LOG_PREFIX: &'static str = "voicetypr-";

/// The end of every log file name.
pub const LOG_SUFFIX: &'static str = ".log";

/// How much of the newest log a bug report carries, in bytes.
pub const MAX_TAIL_BYTES: u64 = 40_960;

/// A log file name: `voicetypr-<date>.log`.
pub open spec fn is_log_name(name: Seq<char>) -> bool {
    has_prefix(name, LOG_PREFIX@) && has_suffix(name, LOG_SUFFIX@)
}

/// Whether `name` is a log file name.
pub fn is_log_file_name(name: &str) -> (b: bool)
    ensures
        b == is_log_name(name@),
{
    str_starts_with(name, LOG_PREFIX) && str_ends_with(name, LOG_SUFFIX)
}

/// The date part of a log file name.
pub open spec fn log_date_part(name: Seq<char>) -> Seq<char> {
    name.subrange(10, name.len() - 4)
}

/// The text between `voicetypr-` and `.log` of a log file name.
pub fn log_date_text(name: &str) -> (r: Option<String>)
    ensures
        is_log_name(name@) ==> (r matches Some(d) && d@ == log_date_part(name@)),
        !is_log_name(name@) ==> r.is_none(),
{
    if !is_log_file_name(name) {
        return None;
    }
    proof {
        reveal_strlit("voicetypr-");
        reveal_strlit(".log");
        if name@.len() < 14 {
            let idx = name@.len() - 4;
            assert(name@[idx] == name@.subrange(name@.len() - 4, name@.len() as int)[0]);
            assert(name@[idx] == name@.subrange(0, 10)[idx]);
            assert(".log"@[0] == '.');
            assert("voicetypr-"@[idx] != '.');
        }
    }
    let v = crate::text::chars_of(name);
    let d = crate::text::slice_chars(v.as_slice(), 10, v.len() - 4);
    Some(crate::text::string_from(d.as_slice()))
}

/// The calendar date `chrono::NaiveDate::parse_from_str(s, "%Y-%m-%d")`
/// reads from `s`, as (year, month, day), or `None` when it does not parse.
pub uninterp spec fn parsed_date(s: Seq<char>) -> Option<(i32, u32, u32)>;

/// Calls `chrono::NaiveDate::parse_from_str` with the format `%Y-%m-%d` and
/// hands on the year, month and day. The contract names the result: it is a
/// function of the text alone.
#[verifier::external_body]
fn parse_date(s: &str) -> (r: Option<(i32, u32, u32)>)
    ensures
        r == parsed_date(s@),
{
    chrono::NaiveDate::parse_from_str(s, "%Y-%m-%d").ok().map(
        |d| (chrono::Datelike::year(&d), chrono::Datelike::month(&d), chrono::Datelike::day(&d)),
    )
}

/// Date `a` is before date `b`.
pub open spec fn date_before(a: (i32, u32, u32), b: (i32, u32, u32)) -> bool {
    a.0 < b.0 || (a.0 == b.0 && (a.1 < b.1 || (a.1 == b.1 && a.2 < b.2)))
}

/// The date of a log file, from its name.
pub fn log_date(name: &str) -> (r: Option<(i32, u32, u32)>)
    ensures
        r == (if is_log_name(name@) {
            parsed_date(log_date_part(name@))
        } else {
            None
        }),
{
    match log_date_text(name) {
        Some(d) => parse_date(d.as_str()),
        None => None,
    }
}

/// A log file is removed when its name dates it before the cutoff.
pub open spec fn log_removed(name: Seq<char>, cutoff: (i32, u32, u32)) -> bool {
    is_log_name(name) && (parsed_date(log_date_part(name)) matches Some(d) && date_before(
        d,
        cutoff,
    ))
}

/// A date (year, month, day) with a month of the year and a day of a month.
pub open spec fn is_calendar_date(d: (i32, u32, u32)) -> bool {
    1 <= d.1 <= 12 && 1 <= d.2 <= 31
}

/// The date written `yyyymmdd` and read as a number.
pub open spec fn day_number(d: (i32, u32, u32)) -> int {
    d.0 * 10000 + d.1 * 100 + d.2
}

/// Which logs are removed: a log dated before the cutoff year always is,
/// whatever its month and day; one dated after it never is; for calendar
/// dates a log is removed exactly when its `yyyymmdd` number is smaller than
/// the cutoff's; and a file whose name gives no date is kept.
pub proof fn lemma_log_removal_follows_calendar(
    name: Seq<char>,
    d: (i32, u32, u32),
    cutoff: (i32, u32, u32),
)
    ensures
        is_log_name(name) && parsed_date(log_date_part(name)) == Some(d) && d.0 < cutoff.0
            ==> log_removed(name, cutoff),
        parsed_date(log_date_part(name)) == Some(d) && d.0 > cutoff.0 ==> !log_removed(
            name,
            cutoff,
        ),
        is_log_name(name) && parsed_date(log_date_part(name)) == Some(d) && is_calendar_date(d)
            && is_calendar_date(cutoff) ==> (log_removed(name, cutoff) <==> day_number(d)
            < day_number(cutoff)),
        !is_log_name(name) || parsed_date(log_date_part(name)) is None ==> !log_removed(
            name,
            cutoff,
        ),
{
}

/// Whether a log file is removed: its name dates it before the cutoff.
pub fn should_delete_log(name: &str, cutoff: (i32, u32, u32)) -> (b: bool)
    ensures
        b == log_removed(name@, cutoff),
{
    match log_date(name) {
        Some(d) => d.0 < cutoff.0 || (d.0 == cutoff.0 && (d.1 < cutoff.1 || (d.1 == cutoff.1
            && d.2 < cutoff.2))),
        None => false,
    }
}

/// Log `a` is older than log `b`: modified earlier, or at the same time with
/// a smaller name.
pub open spec fn log_older(a: (String, u128), b: (String, u128)) -> bool {
    a.1 < b.1 || (a.1 == b.1 && lex_less(a.0@, b.0@))
}

/// Entry `i` (name, modification time) is the newest log file, the first of
/// equal ones.
pub open spec fn is_newest_log_at(es: Seq<(String, u128)>, i: int) -> bool {
    &&& 0 <= i < es.len()
    &&& is_log_name(es[i].0@)
    &&& forall|j: int|
        0 <= j < es.len() && is_log_name(es[j].0@) ==> !log_older(es[i], #[trigger] es[j])
    &&& forall|j: int|
        0 <= j < i && is_log_name(es[j].0@) ==> log_older(#[trigger] es[j], es[i])
}

/// The newest log file among regular files (name, modification time).
pub fn find_newest_log(entries: &Vec<(String, u128)>) -> (r: Option<usize>)
    ensures
        match r {
            Some(i) => is_newest_log_at(entries@, i as int),
            None => forall|j: int| 0 <= j < entries@.len() ==> !is_log_name((#[trigger] entries@[j]).0@),
        },
{
    let mut best: Option<usize> = None;
    let mut k: usize = 0;
    while k < entries.len()
        invariant
            k <= entries@.len(),
            match best {
                Some(b) => {
                    &&& b < k
                    &&& is_log_name(entries@[b as int].0@)
                    &&& forall|j: int|
                        0 <= j < k && is_log_name(entries@[j].0@) ==> !log_older(
                            entries@[b as int],
                            #[trigger] entries@[j],
                        )
                    &&& forall|j: int|
                        0 <= j < b && is_log_name(entries@[j].0@) ==> log_older(
                            #[trigger] entries@[j],
                            entries@[b as int],
                        )
                },
                None => forall|j: int| 0 <= j < k ==> !is_log_name((#[trigger] entries@[j]).0@),
            },
        decreases entries@.len() - k,
    {
        let (name, modified) = &entries[k];
        if is_log_file_name(name.as_str()) {
            match best {
                None => {
                    proof {
                        crate::text::lemma_lex_less_total(name@, name@);
                    }
                    best = Some(k);
                },
                Some(b) => {
                    let (best_name, best_modified) = &entries[b];
                    let newer = *modified > *best_modified || (*modified == *best_modified
                        && str_less(best_name.as_str(), name.as_str()));
                    proof {
                        let eb = entries@[b as int];
                        let ek = entries@[k as int];
                        crate::text::lemma_lex_less_total(eb.0@, ek.0@);
                        crate::text::lemma_lex_less_total(ek.0@, ek.0@);
                        if newer {
                            assert forall|j: int|
                                0 <= j < k + 1 && is_log_name(entries@[j].0@) implies !log_older(
                                ek,
                                #[trigger] entries@[j],
                            ) by {
                                let ej = entries@[j];
                                if j < k {
                                    crate::text::lemma_lex_less_total(ej.0@, ek.0@);
                                    crate::text::lemma_lex_less_total(eb.0@, ej.0@);
                                    if lex_less(ek.0@, ej.0@) && lex_less(eb.0@, ek.0@) {
                                        crate::text::lemma_lex_less_transitive(eb.0@, ek.0@, ej.0@);
                                    }
                                }
                            }
                            assert forall|j: int|
                                0 <= j < k && is_log_name(entries@[j].0@) implies log_older(
                                #[trigger] entries@[j],
                                ek,
                            ) by {
                                let ej = entries@[j];
                                crate::text::lemma_lex_less_total(ej.0@, eb.0@);
                                if lex_less(ej.0@, eb.0@) && lex_less(eb.0@, ek.0@) {
                                    crate::text::lemma_lex_less_transitive(ej.0@, eb.0@, ek.0@);
                                }
                            }
                        }
                    }
                    if newer {
                        best = Some(k);
                    }
                },
            }
        }
        k = k + 1;
    }
    best
}

/// Where the kept tail of a log starts: after its first line feed, unless
/// that would leave nothing (a single long line is kept whole).
pub fn tail_start(bytes: &[u8]) -> (r: usize)
    ensures
        r <= bytes@.len(),
        (exists|i: int| 0 <= i < bytes@.len() && bytes@[i] == 10u8) ==> ({
            let first = choose|i: int|
                0 <= i < bytes@.len() && bytes@[i] == 10u8 && forall|j: int|
                    0 <= j < i ==> bytes@[j] != 10u8;
            r == (if first + 1 < bytes@.len() {
                first + 1
            } else {
                0
            })
        }),
        (forall|i: int| 0 <= i < bytes@.len() ==> bytes@[i] != 10u8) ==> r == 0,
{
    let mut i: usize = 0;
    while i < bytes.len()
        invariant
            i <= bytes@.len(),
            forall|j: int| 0 <= j < i ==> bytes@[j] != 10u8,
        decreases bytes@.len() - i,
    {
        if bytes[i] == 10u8 {
            proof {
                let first = choose|f: int|
                    0 <= f < bytes@.len() && bytes@[f] == 10u8 && forall|j: int|
                        0 <= j < f ==> bytes@[j] != 10u8;
                assert(0 <= i < bytes@.len() && bytes@[i as int] == 10u8 && forall|j: int|
                    0 <= j < i ==> bytes@[j] != 10u8);
                if first < i {
                    assert(bytes@[first] != 10u8);
                }
                if first > i {
                    assert(bytes@[i as int] != 10u8);
                }
            }
            if i + 1 < bytes.len() {
                return i + 1;
            } else {
                return 0;
            }
        }
        i = i + 1;
    }
    0
}

// ---------------------------------------------------------------------------
// Redaction
// ---------------------------------------------------------------------------

/// A key/value secret in quotes: the field name stays, the value goes.
pub const WRAPPED_SECRET_PATTERN: &'static str = r#"(?i)([\"']?\b(?:api[_-]?key|apikey|secret[_-]?key|access[_-]?token|license[_-]?key)\b[\"']?\s*[:=]\s*(?:Some\(|String\()?['\"])[^'\"]+(['\"]\)?)"#;

/// The replacement for `WRAPPED_SECRET_PATTERN`.
pub const WRAPPED_SECRET_REPLACEMENT: &'static str = "$1[REDACTED]$2";

/// An unquoted key/value secret.
pub const UNQUOTED_SECRET_PATTERN: &'static str = r#"(?i)(\b(?:api[_-]?key|apikey|secret[_-]?key|access[_-]?token|license[_-]?key)\b\s*[:=]\s*)[^\s,;}]+"#;

/// The replacement for `UNQUOTED_SECRET_PATTERN`.
pub const UNQUOTED_SECRET_REPLACEMENT: &'static str = "$1[REDACTED]";

/// A bearer token.
pub const BEARER_TOKEN_PATTERN: &'static str = r"(?i)bearer\s+[^\s,;]+\b";

/// The replacement for `BEARER_TOKEN_PATTERN`.
pub const BEARER_TOKEN_REPLACEMENT: &'static str = "bearer [REDACTED]";

/// An `sk-` API key.
pub const SECRET_KEY_VALUE_PATTERN: &'static str = r"\b(sk-(?:ant(?:hropic)?-)?)[a-zA-Z0-9_-]{20,}\b";

/// The replacement for `SECRET_KEY_VALUE_PATTERN`.
pub const SECRET_KEY_VALUE_REPLACEMENT: &'static str = "$1[REDACTED]";

/// A license-looking value labelled as a license.
pub const LABELLED_LICENSE_PATTERN: &'static str = r#"(?i)\b(license(?:\s+(?:key|id))?\s+)['\"]?[A-Z0-9]{4,8}(?:-[A-Z0-9]{4,8}){3,}['\"]?"#;

/// The replacement for `LABELLED_LICENSE_PATTERN`.
pub const LABELLED_LICENSE_REPLACEMENT: &'static str = "$1[LICENSE_REDACTED]";

/// An e-mail address.
pub const EMAIL_ADDRESS_PATTERN: &'static str = r"\b[A-Za-z0-9._%+-]+@[A-Za-z0-9.-]+\.[A-Za-z]{2,}\b";

/// The replacement for `EMAIL_ADDRESS_PATTERN`.
pub const EMAIL_ADDRESS_REPLACEMENT: &'static str = "[EMAIL_REDACTED]";

/// A home directory (macOS, Linux or Windows).
pub const HOME_DIRECTORY_PATTERN: &'static str = r"(?:/Users/[^/\r\n]+|/home/[^/\r\n]+|C:\\Users\\[^\\\r\n]+)";

/// The replacement for `HOME_DIRECTORY_PATTERN`.
pub const HOME_DIRECTORY_REPLACEMENT: &'static str = "[HOME_DIR]";

/// Another absolute local path.
pub const ABSOLUTE_PATH_PATTERN: &'static str = r#"(^|[\s\"'(=])(/(?:Volumes|tmp|private|var|opt|Applications|Library|System|etc|usr|proc)/[^\r\n\"',)]+|[A-Za-z]:\\[^\r\n\"',)]+)"#;

/// The replacement for `ABSOLUTE_PATH_PATTERN`.
pub const ABSOLUTE_PATH_REPLACEMENT: &'static str = "$1[PATH_REDACTED]";

/// What `regex::Regex::new(pattern)` followed by `replace_all(text,
/// replacement)` gives: `None` when the pattern does not compile.
pub uninterp spec fn regex_replaced(pattern: Seq<char>, text: Seq<char>, replacement: Seq<char>) -> Option<Seq<char>>;

/// Compiles `pattern` with `regex::Regex::new` and replaces all its matches
/// in `text` with `replacement` (`$n` naming groups) by `Regex::replace_all`.
/// The contract names the result: a function of the three strings alone.
#[verifier::external_body]
fn regex_replace_all(pattern: &str, text: &str, replacement: &str) -> (r: Option<String>)
    ensures
        match r {
            Some(s) => regex_replaced(pattern@, text@, replacement@) == Some(s@),
            None => regex_replaced(pattern@, text@, replacement@).is_none(),
        },
{
    regex::Regex::new(pattern).ok().map(|re| re.replace_all(text, replacement).into_owned())
}

/// One redaction rule applied to `s` (a pattern that does not compile leaves
/// `s` as it is).
pub open spec fn apply_rule(s: Seq<char>, pattern: Seq<char>, replacement: Seq<char>) -> Seq<char> {
    match regex_replaced(pattern, s, replacement) {
        Some(r) => r,
        None => s,
    }
}

/// The redacted log: secrets, tokens, keys, licenses, e-mail addresses, home
/// directories and absolute paths, in that order.
pub open spec fn redacted(content: Seq<char>) -> Seq<char> {
    let s1 = apply_rule(content, WRAPPED_SECRET_PATTERN@, WRAPPED_SECRET_REPLACEMENT@);
    let s2 = apply_rule(s1, UNQUOTED_SECRET_PATTERN@, UNQUOTED_SECRET_REPLACEMENT@);
    let s3 = apply_rule(s2, BEARER_TOKEN_PATTERN@, BEARER_TOKEN_REPLACEMENT@);
    let s4 = apply_rule(s3, SECRET_KEY_VALUE_PATTERN@, SECRET_KEY_VALUE_REPLACEMENT@);
    let s5 = apply_rule(s4, LABELLED_LICENSE_PATTERN@, LABELLED_LICENSE_REPLACEMENT@);
    let s6 = apply_rule(s5, EMAIL_ADDRESS_PATTERN@, EMAIL_ADDRESS_REPLACEMENT@);
    let s7 = apply_rule(s6, HOME_DIRECTORY_PATTERN@, HOME_DIRECTORY_REPLACEMENT@);
    apply_rule(s7, ABSOLUTE_PATH_PATTERN@, ABSOLUTE_PATH_REPLACEMENT@)
}

/// Applies one redaction rule.
fn apply_redaction(s: String, pattern: &str, replacement: &str) -> (r: String)
    ensures
        r@ == apply_rule(s@, pattern@, replacement@),
{
    match regex_replace_all(pattern, s.as_str(), replacement) {
        Some(t) => t,
        None => s,
    }
}

/// Redact common sensitive patterns from log content.
/// Preserves context for debugging while removing secrets.
pub fn redact_log_content(content: &str) -> (r: String)
    ensures
        r@ == redacted(content@),
{
    let mut s = content.to_owned();
    s = apply_redaction(s, WRAPPED_SECRET_PATTERN, WRAPPED_SECRET_REPLACEMENT);
    s = apply_redaction(s, UNQUOTED_SECRET_PATTERN, UNQUOTED_SECRET_REPLACEMENT);
    s = apply_redaction(s, BEARER_TOKEN_PATTERN, BEARER_TOKEN_REPLACEMENT);
    s = apply_redaction(s, SECRET_KEY_VALUE_PATTERN, SECRET_KEY_VALUE_REPLACEMENT);
    s = apply_redaction(s, LABELLED_LICENSE_PATTERN, LABELLED_LICENSE_REPLACEMENT);
    s = apply_redaction(s, EMAIL_ADDRESS_PATTERN, EMAIL_ADDRESS_REPLACEMENT);
    s = apply_redaction(s, HOME_DIRECTORY_PATTERN, HOME_DIRECTORY_REPLACEMENT);
    s = apply_redaction(s, ABSOLUTE_PATH_PATTERN, ABSOLUTE_PATH_REPLACEMENT);
    s
}

/// Response for the latest-log bug-report attachment command.
#[derive(Debug, Clone)]
pub struct LatestLogAttachment {
    /// File name of the selected log (e.g. "voicetypr-2026-04-27.log").
    pub file_name: Option<String>,
    /// Redacted tail content ready for frontend display/copy.
    pub redacted_content: String,
    /// True when the file was larger than MAX_TAIL_BYTES and was truncated.
    pub truncated: bool,
    /// Human-readable status for the frontend (empty when log exists).
    pub status_note: String,
}

/// The note when no log exists.
pub const NO_LOG_NOTE: &'static str =
    "No log file found. Logs will be included automatically when available.";

/// The note when the newest log cannot be read.
pub const UNREADABLE_LOG_NOTE: &'static str = "Found a log file, but it could not be read.";

/// The bug-report attachment: with no log, a note saying so; with a log that
/// could not be read, its name and a note; else its name and redacted tail.
/// `found` tells whether a log exists; `tail` is its tail and whether it was
/// cut, if it could be read.
pub fn latest_log_attachment(found: bool, file_name: Option<String>, tail: Option<(String, bool)>) -> (r:
    LatestLogAttachment)
    ensures
        !found ==> r.file_name.is_none() && r.redacted_content@.len() == 0 && !r.truncated
            && r.status_note@ == NO_LOG_NOTE@,
        found && tail.is_none() ==> r.file_name == file_name && r.redacted_content@.len() == 0
            && !r.truncated && r.status_note@ == UNREADABLE_LOG_NOTE@,
        found ==> (tail matches Some((t, cut)) ==> r.file_name == file_name && r.redacted_content@
            == redacted(t@) && r.truncated == cut && r.status_note@.len() == 0),
{
    if !found {
        return LatestLogAttachment {
            file_name: None,
            redacted_content: String::new(),
            truncated: false,
            status_note: NO_LOG_NOTE.to_owned(),
        };
    }
    match tail {
        None => LatestLogAttachment {
            file_name,
            redacted_content: String::new(),
            truncated: false,
            status_note: UNREADABLE_LOG_NOTE.to_owned(),
        },
        Some((t, cut)) => LatestLogAttachment {
            file_name,
            redacted_content: redact_log_content(t.as_str()),
            truncated: cut,
            status_note: String::new(),
        },
    }
}

} // verus!
