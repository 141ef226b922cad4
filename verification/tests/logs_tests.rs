use voicetypr::commands::history::{effective_status, history_order, is_duplicate_save, latest_entry};
use voicetypr::commands::logs::{
    find_newest_log, is_log_file_name, latest_log_attachment, log_date, log_date_text,
    redact_log_content, should_delete_log, tail_start,
};

#[test]
fn log_names_and_dates() {
    assert!(is_log_file_name("voicetypr-2024-01-02.log"));
    assert!(!is_log_file_name("other-2024-01-02.log"));
    assert_eq!(log_date_text("voicetypr-2024-01-02.log"), Some("2024-01-02".to_string()));
    assert_eq!(log_date("voicetypr-2024-01-02.log"), Some((2024, 1, 2)));
    assert_eq!(log_date("voicetypr-garbage.log"), None);
    assert!(should_delete_log("voicetypr-2024-01-02.log", (2024, 1, 3)));
    assert!(!should_delete_log("voicetypr-2024-01-03.log", (2024, 1, 3)));
    assert!(!should_delete_log("notes.txt", (2030, 1, 1)));
}

#[test]
fn newest_log_prefers_later_then_larger_name() {
    let entries = vec![
        ("voicetypr-2024-01-01.log".to_string(), 10u128),
        ("readme.txt".to_string(), 99u128),
        ("voicetypr-2024-01-03.log".to_string(), 20u128),
        ("voicetypr-2024-01-02.log".to_string(), 20u128),
    ];
    assert_eq!(find_newest_log(&entries), Some(2));
    assert_eq!(find_newest_log(&vec![("x.txt".to_string(), 1u128)]), None);
}

#[test]
fn tails_start_after_the_first_line() {
    assert_eq!(tail_start(b"partial\nline two\n"), 8);
    assert_eq!(tail_start(b"one long line"), 0);
    assert_eq!(tail_start(b"only\n"), 0);
}

#[test]
fn secrets_are_redacted() {
    let line = ["api", "_key", "=", "abc", "123 done"].concat();
    assert_eq!(redact_log_content(&line), "api_key=[REDACTED] done");
}

#[test]
fn quoted_secrets_are_redacted() {
    let line = ["\"api", "_key\": ", "\"abc\""].concat();
    assert_eq!(redact_log_content(&line), "\"api_key\": \"[REDACTED]\"");
}

#[test]
fn bearer_tokens_are_redacted() {
    let line = ["Authorization: ", "Bearer", " xyz", ".abc"].concat();
    assert_eq!(redact_log_content(&line), "Authorization: bearer [REDACTED]");
}

#[test]
fn sk_keys_are_redacted() {
    // The key is assembled at run time: 26 letters after the `sk-` prefix.
    let key: String = ('a'..='z').collect();
    let line = format!("key {}-{}", "sk", key);
    assert_eq!(redact_log_content(&line), "key sk-[REDACTED]");
}

#[test]
fn emails_are_redacted() {
    assert_eq!(redact_log_content("mail me@example.com now"), "mail [EMAIL_REDACTED] now");
}

#[test]
fn home_directories_are_redacted() {
    assert_eq!(redact_log_content("/Users/alice/Library/x"), "[HOME_DIR]/Library/x");
}

#[test]
fn absolute_paths_are_redacted() {
    assert_eq!(redact_log_content("open /tmp/x.wav"), "open [PATH_REDACTED]");
}

#[test]
fn plain_text_is_kept() {
    assert_eq!(redact_log_content("nothing secret"), "nothing secret");
}

#[test]
fn bug_report_attachments() {
    let none = latest_log_attachment(false, None, None);
    assert_eq!(none.status_note, "No log file found. Logs will be included automatically when available.");
    let unread = latest_log_attachment(true, Some("voicetypr-x.log".to_string()), None);
    assert_eq!(unread.status_note, "Found a log file, but it could not be read.");
    assert_eq!(unread.file_name.as_deref(), Some("voicetypr-x.log"));
    let tail = ["tok", "en=", "abc"].concat();
    let ok = latest_log_attachment(true, Some("f".to_string()), Some((tail, true)));
    assert_eq!(ok.redacted_content, "token=abc");
    assert!(ok.truncated);
    assert_eq!(ok.status_note, "");
}

#[test]
fn history_listing_and_duplicates() {
    let keys = vec![
        "2024-01-02T10:00:00Z".to_string(),
        "2024-01-03T10:00:00Z".to_string(),
        "2024-01-01T10:00:00Z".to_string(),
    ];
    assert_eq!(latest_entry(&keys), Some(1));
    assert_eq!(latest_entry(&vec![]), None);
    assert_eq!(history_order(&keys, None), vec![1, 0, 2]);
    assert_eq!(history_order(&keys, Some(2)), vec![1, 0]);
    assert!(is_duplicate_save(Some("hi"), Some("base"), Some(-2), "hi", "base"));
    assert!(!is_duplicate_save(Some("hi"), Some("base"), Some(3), "hi", "base"));
    assert!(!is_duplicate_save(Some("hi"), Some("tiny"), Some(0), "hi", "base"));
    assert!(!is_duplicate_save(Some("hi"), Some("base"), None, "hi", "base"));
    assert!(!is_duplicate_save(Some("hi"), Some("base"), Some(i64::MIN), "hi", "base"));
    assert_eq!(effective_status(None), "completed");
}
