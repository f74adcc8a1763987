use ytracker::display::{
    collapse_whitespace, describe_scroll_id, format_running_label, holds_sensitive_hint,
    issue_label, issue_menu_id, log_issue_fetch_result, log_issue_fetch_start, motivational_phrase,
    phrase_for,
    redact_log_details, tray_title, truncate_text,
};
use ytracker::timer::TimerState;

fn running(key: Option<&str>, summary: Option<&str>, elapsed: u64) -> TimerState {
    TimerState {
        active: true,
        issue_key: key.map(str::to_string),
        issue_summary: summary.map(str::to_string),
        start_time: Some(1),
        elapsed,
    }
}

#[test]
fn whitespace_collapses_to_single_spaces() {
    assert_eq!(collapse_whitespace("  a \t b\n\nc "), "a b c");
    assert_eq!(collapse_whitespace("a\u{a0}b\u{3000}c"), "a b c");
    assert_eq!(collapse_whitespace(""), "");
    assert_eq!(collapse_whitespace("\n"), "");
    for sample in ["x  y", " lead", "trail ", "one\ttwo\r\nthree", "únï  cödé"] {
        assert_eq!(collapse_whitespace(sample), sample.split_whitespace().collect::<Vec<_>>().join(" "));
    }
}

#[test]
fn truncation_counts_the_ellipsis_towards_the_limit() {
    assert_eq!(truncate_text("  hello world  ", 5), "hell…");
    assert_eq!(truncate_text("hello", 5), "hello");
    assert_eq!(truncate_text("hello", 4), "hel…");
    assert_eq!(truncate_text("hello", 2), "h…");
    assert_eq!(truncate_text("hello", 1), "…");
    assert_eq!(truncate_text("hello", 0), "…");
    assert_eq!(truncate_text("", 0), "");
    assert_eq!(truncate_text("   ", 0), "");
    assert_eq!(truncate_text("héllo wörld", 7), "héllo …");
    assert_eq!(truncate_text("abc", usize::MAX), "abc");
}

#[test]
fn log_details_with_a_hint_of_a_secret_collapse_to_their_category() {
    assert_eq!(redact_log_details("Error: token=abc123"), "Error: <redacted-sensitive-details>");
    assert_eq!(
        redact_log_details("  http  401 :  AUTHORIZATION header rejected"),
        "http 401: <redacted-sensitive-details>"
    );
    assert_eq!(redact_log_details("my PASSWORD leaked"), "my PASSWORD leaked: <redacted-sensitive-details>");
    assert_eq!(redact_log_details(": Bearer x"), "error: <redacted-sensitive-details>");
    assert_eq!(redact_log_details("   :oauth"), "error: <redacted-sensitive-details>");
    assert_eq!(redact_log_details("a:b:client_secret"), "a: <redacted-sensitive-details>");
    assert_eq!(redact_log_details("redirect?code=1"), "redirect?code=1: <redacted-sensitive-details>");
    assert_eq!(redact_log_details("Set-Cookie seen"), "Set-Cookie seen: <redacted-sensitive-details>");
    let long_category = format!("{}: token", "c".repeat(100));
    assert_eq!(
        redact_log_details(&long_category),
        format!("{}…: <redacted-sensitive-details>", "c".repeat(63))
    );
}

#[test]
fn log_details_without_a_hint_are_collapsed_and_cut() {
    assert_eq!(redact_log_details("  network   down \n now"), "network down now");
    assert_eq!(redact_log_details(""), "");
    assert_eq!(redact_log_details("decode error: expected value"), "decode error: expected value");
    assert_eq!(redact_log_details("tok en"), "tok en");
    let long = "x".repeat(181);
    assert_eq!(redact_log_details(&long), format!("{}…", "x".repeat(179)));
    let exact = "y".repeat(180);
    assert_eq!(redact_log_details(&exact), exact);
}

#[test]
fn hints_are_looked_for_in_lower_case_text() {
    for hint in ["token", "authorization", "bearer", "oauth", "client_secret", "password", "code=", "set-cookie"] {
        assert!(holds_sensitive_hint(&format!("before {} after", hint)), "{}", hint);
    }
    assert!(!holds_sensitive_hint("Token"));
    assert!(!holds_sensitive_hint("code ="));
    assert!(!holds_sensitive_hint(""));
}

#[test]
fn issue_labels_hold_key_and_summary() {
    assert_eq!(issue_label("A-1", "  Fix   the bug "), "A-1: Fix the bug");
    assert_eq!(issue_label("A-1", ""), "A-1");
    assert_eq!(issue_label("A-1", " \n "), "A-1");
    let long = "word ".repeat(20);
    let label = issue_label("A-1", &long);
    assert_eq!(label.chars().count(), "A-1: ".len() + 60);
    assert!(label.ends_with('…'));
    let shown = ytracker::bridge::Issue {
        key: "B-7".to_string(),
        summary: " Two   words ".to_string(),
        description: String::new(),
        status: ytracker::bridge::Status { key: "k".to_string(), display: "d".to_string() },
        priority: ytracker::bridge::Priority { key: "k".to_string(), display: "d".to_string() },
        tracked_seconds: None,
    };
    assert_eq!(ytracker::display::format_issue_label(&shown), "B-7: Two words");
    assert_eq!(issue_menu_id("A-1"), "tray_issue::A-1");
    assert_eq!(issue_menu_id(""), "tray_issue::");
}

#[test]
fn running_labels_hold_key_summary_and_elapsed_time() {
    assert_eq!(
        format_running_label(&running(Some("ABC-1"), Some(" Fix   bug "), 3900)),
        "Running: ABC-1 — Fix bug (1h 05m)"
    );
    assert_eq!(format_running_label(&running(None, None, 0)), "Running: Timer — Timer running (0m)");
    assert_eq!(format_running_label(&running(Some("K"), Some("   "), 61)), "Running: K — Timer running (1m)");
    let long = "s".repeat(80);
    assert_eq!(
        format_running_label(&running(Some("K"), Some(&long), 60)),
        format!("Running: K — {}… (1m)", "s".repeat(49))
    );
    assert_eq!(tray_title(&running(Some("ABC-1"), None, 3600)), "YT: ABC-1 (1h 00m)");
    assert_eq!(tray_title(&running(None, None, 5)), "YT: Timer (0m)");
    let idle = TimerState { active: false, issue_key: None, issue_summary: None, start_time: None, elapsed: 0 };
    assert_eq!(tray_title(&idle), "YTracker");
}

#[test]
fn scroll_ids_are_cut_for_the_log() {
    assert_eq!(describe_scroll_id(None), "root");
    assert_eq!(describe_scroll_id(Some("")), "");
    assert_eq!(describe_scroll_id(Some("123456789012")), "123456789012");
    assert_eq!(describe_scroll_id(Some("1234567890123")), "123456789012…");
    assert_eq!(
        log_issue_fetch_result(None, true, Some("abcdefghijklmnop")),
        "tracker:get_issues result scroll=root has_more=true next_scroll=abcdefghijkl…"
    );
    assert_eq!(
        log_issue_fetch_result(Some("c1"), false, None),
        "tracker:get_issues result scroll=c1 has_more=false next_scroll=root"
    );
    assert_eq!(
        log_issue_fetch_start(None, Some(" q "), 2),
        "tracker:get_issues start scroll=root has_query=true filter_keys=2"
    );
    assert_eq!(
        log_issue_fetch_start(Some("abcdefghijklmnop"), Some("  "), 0),
        "tracker:get_issues start scroll=abcdefghijkl… has_query=false filter_keys=0"
    );
    assert_eq!(
        log_issue_fetch_start(Some("c1"), None, 10),
        "tracker:get_issues start scroll=c1 has_query=false filter_keys=10"
    );
}

#[test]
fn phrases_go_round_the_list_of_eight() {
    let phrases = [
        "Small progress is still progress — you've got this.",
        "A little more focus now will make tomorrow easier.",
        "Keep going — your effort today matters.",
        "One steady push and you'll close the day strong.",
        "You're building momentum — stay with it.",
        "Every tracked minute moves you forward.",
        "Finish with confidence — you can do it.",
        "Your future self will thank you for this final stretch.",
    ];
    for (index, phrase) in phrases.iter().enumerate() {
        assert_eq!(phrase_for(index as u32), *phrase);
        assert_eq!(phrase_for(index as u32 + 8), *phrase);
    }
    assert_eq!(phrase_for(999_999_999), phrases[999_999_999 % 8]);
    assert_eq!(phrase_for(u32::MAX), phrases[7]);
    for _ in 0..20 {
        assert!(phrases.contains(&motivational_phrase()));
    }
}
