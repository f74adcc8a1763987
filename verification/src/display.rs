//! Texts shown to the user or written to the log: elapsed times, labels, and
//! log details with secrets taken out.

use crate::text::{
    append_chars, append_str, before_first, before_first_chars, chars_of, collapse_chars, collapsed,
    contains_chars, contains_text, decimal2_of, decimal_of, lowercase_of, push_decimal,
    push_decimal2, slice_chars, string_of, trim_chars, trimmed, truncate_chars, truncated,
};
use crate::timer::TimerState;
use vstd::prelude::*;

verus! {

/// Prefix of the menu entry of an issue.
pub const ISSUE_MENU_PREFIX: &'static str = "tray_issue::";

/// What stands in place of details that look sensitive.
pub const REDACTION_MARKER: &'static str = ": <redacted-sensitive-details>";

/// Longest log detail that is written out.
pub const LOG_DETAIL_LIMIT: usize = 180;

/// Longest category that is written out before the redaction marker.
pub const LOG_CATEGORY_LIMIT: usize = 64;

/// An elapsed time as it is shown: hours and two-digit minutes from one hour
/// on, minutes alone below.
pub open spec fn elapsed_text_of(elapsed: u64) -> Seq<char> {
    let hours = (elapsed / 3600) as nat;
    let minutes = ((elapsed % 3600) / 60) as nat;
    if hours > 0 {
        decimal_of(hours) + "h "@ + decimal2_of(minutes) + "m"@
    } else {
        decimal_of(minutes) + "m"@
    }
}

/// An elapsed time as it is shown.
pub fn format_elapsed(elapsed: u64) -> (text: String)
    ensures
        text@ == elapsed_text_of(elapsed),
{
    let hours: u64 = elapsed / 3600;
    let minutes: u64 = (elapsed % 3600) / 60;
    let mut out: Vec<char> = Vec::new();
    if hours > 0 {
        push_decimal(&mut out, hours);
        append_str(&mut out, "h ");
        push_decimal2(&mut out, minutes);
        append_str(&mut out, "m");
    } else {
        push_decimal(&mut out, minutes);
        append_str(&mut out, "m");
    }
    proof {
        assert(out@ =~= elapsed_text_of(elapsed));
    }
    string_of(&out)
}

/// The words of a text separated by single spaces.
pub fn collapse_whitespace(value: &str) -> (text: String)
    ensures
        text@ == collapsed(value@),
{
    let chars = chars_of(value);
    let out = collapse_chars(&chars);
    string_of(&out)
}

/// The trimmed text cut to at most `limit` characters; a cut text ends in an
/// ellipsis that counts towards the limit.
pub fn truncate_text(value: &str, limit: usize) -> (text: String)
    ensures
        text@ == truncated(value@, limit as nat),
{
    let chars = chars_of(value);
    let out = truncate_chars(&chars, limit);
    string_of(&out)
}

/// Whether a lower-case text holds one of the hints of a secret.
pub open spec fn has_sensitive_hint(lowered: Seq<char>) -> bool {
    ||| contains_text(lowered, "token"@)
    ||| contains_text(lowered, "authorization"@)
    ||| contains_text(lowered, "bearer"@)
    ||| contains_text(lowered, "oauth"@)
    ||| contains_text(lowered, "client_secret"@)
    ||| contains_text(lowered, "password"@)
    ||| contains_text(lowered, "code="@)
    ||| contains_text(lowered, "set-cookie"@)
}

/// The category of a log detail: what stands before the first colon,
/// trimmed, or `error` where nothing is left.
pub open spec fn category_of(detail: Seq<char>) -> Seq<char> {
    let head = trimmed(before_first(detail, ':'));
    if head.len() == 0 {
        "error"@
    } else {
        head
    }
}

/// A log detail as it may be written: whitespace collapsed and cut to 180
/// characters. A detail that holds a hint of a secret, in any case of
/// letters, is replaced by its category and the redaction marker.
pub open spec fn redacted_of(value: Seq<char>) -> Seq<char> {
    let detail = collapsed(value);
    if has_sensitive_hint(lowercase_of(detail)) {
        truncated(category_of(detail), 64) + REDACTION_MARKER@
    } else {
        truncated(detail, 180)
    }
}

/// Tells whether a text holds the given hint.
fn holds_hint(lowered: &Vec<char>, hint: &str) -> (found: bool)
    ensures
        found == contains_text(lowered@, hint@),
{
    let needle = chars_of(hint);
    contains_chars(lowered, &needle)
}

/// Tells whether a lower-case text holds one of the hints of a secret.
pub fn holds_sensitive_hint(lowered: &str) -> (found: bool)
    ensures
        found == has_sensitive_hint(lowered@),
{
    let chars = chars_of(lowered);
    holds_hint(&chars, "token") || holds_hint(&chars, "authorization") || holds_hint(
        &chars,
        "bearer",
    ) || holds_hint(&chars, "oauth") || holds_hint(&chars, "client_secret") || holds_hint(
        &chars,
        "password",
    ) || holds_hint(&chars, "code=") || holds_hint(&chars, "set-cookie")
}

/// A log detail as it may be written, with secrets taken out.
pub fn redact_log_details(value: &str) -> (text: String)
    ensures
        text@ == redacted_of(value@),
{
    let chars = chars_of(value);
    let detail = collapse_chars(&chars);
    let detail_text = string_of(&detail);
    let lowered = detail_text.as_str().to_lowercase();
    if holds_sensitive_hint(lowered.as_str()) {
        let head = before_first_chars(&detail, ':');
        let head = trim_chars(&head);
        let category = if head.len() == 0 {
            chars_of("error")
        } else {
            head
        };
        let mut out = truncate_chars(&category, LOG_CATEGORY_LIMIT);
        append_str(&mut out, REDACTION_MARKER);
        string_of(&out)
    } else {
        let out = truncate_chars(&detail, LOG_DETAIL_LIMIT);
        string_of(&out)
    }
}

/// The id of the menu entry that starts the timer for an issue.
pub fn issue_menu_id(issue_key: &str) -> (id: String)
    ensures
        id@ == ISSUE_MENU_PREFIX@ + issue_key@,
{
    let mut out = chars_of(ISSUE_MENU_PREFIX);
    append_str(&mut out, issue_key);
    string_of(&out)
}

/// The label of an issue: its key, and after a colon its summary with
/// whitespace collapsed and cut to 60 characters, where it has one.
pub open spec fn issue_label_of(key: Seq<char>, summary: Seq<char>) -> Seq<char> {
    let text = collapsed(summary);
    if text.len() == 0 {
        key
    } else {
        key + ": "@ + truncated(text, 60)
    }
}

/// The label of an issue with the given key and summary.
pub fn issue_label(key: &str, summary: &str) -> (label: String)
    ensures
        label@ == issue_label_of(key@, summary@),
{
    let chars = chars_of(summary);
    let text = collapse_chars(&chars);
    if text.len() == 0 {
        key.to_owned()
    } else {
        let mut out = chars_of(key);
        append_str(&mut out, ": ");
        let cut = truncate_chars(&text, 60);
        append_chars(&mut out, &cut);
        string_of(&out)
    }
}

/// The label of an issue in the tray menu.
pub fn format_issue_label(issue: &crate::bridge::Issue) -> (label: String)
    ensures
        label@ == issue_label_of(issue.key@, issue.summary@),
{
    issue_label(issue.key.as_str(), issue.summary.as_str())
}

/// The summary shown for a running timer: the summary with whitespace
/// collapsed and cut to 50 characters, or `Timer running` where nothing is
/// left of it.
pub open spec fn running_summary_of(summary: Option<Seq<char>>) -> Seq<char> {
    match summary {
        Some(text) => if truncated(collapsed(text), 50).len() == 0 {
            "Timer running"@
        } else {
            truncated(collapsed(text), 50)
        },
        None => "Timer running"@,
    }
}

/// The label of a running timer.
pub open spec fn running_label_of(state: TimerState) -> Seq<char> {
    "Running: "@ + match state.issue_key {
        Some(key) => key@,
        None => "Timer"@,
    } + " — "@ + running_summary_of(crate::text::opt_text(state.issue_summary)) + " ("@
        + elapsed_text_of(state.elapsed) + ")"@
}

/// The label of a running timer: key, summary and elapsed time.
pub fn format_running_label(state: &TimerState) -> (label: String)
    ensures
        label@ == running_label_of(*state),
{
    let mut out = chars_of("Running: ");
    match &state.issue_key {
        Some(key) => append_str(&mut out, key.as_str()),
        None => append_str(&mut out, "Timer"),
    }
    append_str(&mut out, " — ");
    let mut shown = false;
    match &state.issue_summary {
        Some(summary) => {
            let chars = chars_of(summary.as_str());
            let text = collapse_chars(&chars);
            let cut = truncate_chars(&text, 50);
            if cut.len() > 0 {
                append_chars(&mut out, &cut);
                shown = true;
            }
        },
        None => {},
    }
    if !shown {
        append_str(&mut out, "Timer running");
    }
    append_str(&mut out, " (");
    let elapsed = format_elapsed(state.elapsed);
    append_str(&mut out, elapsed.as_str());
    append_str(&mut out, ")");
    proof {
        assert(out@ =~= running_label_of(*state));
    }
    string_of(&out)
}

/// The title of the tray icon: the key and elapsed time of a running timer,
/// the name of the application else.
pub open spec fn tray_title_of(state: TimerState) -> Seq<char> {
    if state.active {
        "YT: "@ + match state.issue_key {
            Some(key) => key@,
            None => "Timer"@,
        } + " ("@ + elapsed_text_of(state.elapsed) + ")"@
    } else {
        "YTracker"@
    }
}

/// The title of the tray icon.
pub fn tray_title(state: &TimerState) -> (title: String)
    ensures
        title@ == tray_title_of(*state),
{
    if state.active {
        let mut out = chars_of("YT: ");
        match &state.issue_key {
            Some(key) => append_str(&mut out, key.as_str()),
            None => append_str(&mut out, "Timer"),
        }
        append_str(&mut out, " (");
        let elapsed = format_elapsed(state.elapsed);
        append_str(&mut out, elapsed.as_str());
        append_str(&mut out, ")");
        proof {
            assert(out@ =~= tray_title_of(*state));
        }
        string_of(&out)
    } else {
        "YTracker".to_owned()
    }
}

/// A scroll id as it is logged: `root` for none, the id where it has at most
/// 12 characters, else its first 12 characters and an ellipsis.
pub open spec fn scroll_id_text_of(scroll_id: Option<Seq<char>>) -> Seq<char> {
    match scroll_id {
        Some(id) => if id.len() > 12 {
            id.take(12).push('…')
        } else {
            id
        },
        None => "root"@,
    }
}

/// A scroll id as it is logged.
pub fn describe_scroll_id(scroll_id: Option<&str>) -> (text: String)
    ensures
        text@ == scroll_id_text_of(crate::request::opt_str(scroll_id)),
{
    match scroll_id {
        Some(id) => {
            let chars = chars_of(id);
            if chars.len() > 12 {
                let mut out = slice_chars(&chars, 0, 12);
                out.push('…');
                assert(chars@.subrange(0, 12) =~= chars@.take(12));
                string_of(&out)
            } else {
                id.to_owned()
            }
        },
        None => "root".to_owned(),
    }
}

/// The line logged before a page of issues is fetched: the scroll, whether
/// there is a query that is not blank, and the number of filter keys.
pub open spec fn fetch_start_text_of(
    scroll_id: Option<Seq<char>>,
    query: Option<Seq<char>>,
    filter_keys: nat,
) -> Seq<char> {
    "tracker:get_issues start scroll="@ + scroll_id_text_of(scroll_id) + " has_query="@ + if query
        matches Some(text) && !crate::text::is_blank(text) {
        "true"@
    } else {
        "false"@
    } + " filter_keys="@ + decimal_of(filter_keys)
}

/// The line logged before a page of issues is fetched. The caller writes it.
pub fn log_issue_fetch_start(scroll_id: Option<&str>, query: Option<&str>, filter_keys: usize) -> (line:
    String)
    ensures
        line@ == fetch_start_text_of(
            crate::request::opt_str(scroll_id),
            crate::request::opt_str(query),
            filter_keys as nat,
        ),
{
    let mut out = chars_of("tracker:get_issues start scroll=");
    let current = describe_scroll_id(scroll_id);
    append_str(&mut out, current.as_str());
    append_str(&mut out, " has_query=");
    let has_query = match query {
        Some(text) => !crate::text::str_is_blank(text),
        None => false,
    };
    if has_query {
        append_str(&mut out, "true");
    } else {
        append_str(&mut out, "false");
    }
    append_str(&mut out, " filter_keys=");
    push_decimal(&mut out, filter_keys as u64);
    proof {
        assert(out@ =~= fetch_start_text_of(
            crate::request::opt_str(scroll_id),
            crate::request::opt_str(query),
            filter_keys as nat,
        ));
    }
    string_of(&out)
}

/// The line logged after a page of issues was fetched.
pub open spec fn fetch_result_text_of(
    scroll_id: Option<Seq<char>>,
    has_more: bool,
    next_scroll_id: Option<Seq<char>>,
) -> Seq<char> {
    "tracker:get_issues result scroll="@ + scroll_id_text_of(scroll_id) + " has_more="@ + if has_more {
        "true"@
    } else {
        "false"@
    } + " next_scroll="@ + scroll_id_text_of(next_scroll_id)
}

/// The line logged after a page of issues was fetched. The caller writes it.
pub fn log_issue_fetch_result(scroll_id: Option<&str>, has_more: bool, next_scroll_id: Option<&str>) -> (line:
    String)
    ensures
        line@ == fetch_result_text_of(
            crate::request::opt_str(scroll_id),
            has_more,
            crate::request::opt_str(next_scroll_id),
        ),
{
    let mut out = chars_of("tracker:get_issues result scroll=");
    let current = describe_scroll_id(scroll_id);
    append_str(&mut out, current.as_str());
    append_str(&mut out, " has_more=");
    if has_more {
        append_str(&mut out, "true");
    } else {
        append_str(&mut out, "false");
    }
    append_str(&mut out, " next_scroll=");
    let next = describe_scroll_id(next_scroll_id);
    append_str(&mut out, next.as_str());
    proof {
        assert(out@ =~= fetch_result_text_of(
            crate::request::opt_str(scroll_id),
            has_more,
            crate::request::opt_str(next_scroll_id),
        ));
    }
    string_of(&out)
}

/// The phrase with the given number, counted from zero round the list of
/// eight.
pub open spec fn phrase_of(index: nat) -> Seq<char> {
    let i = index % 8;
    if i == 0 {
        "Small progress is still progress — you've got this."@
    } else if i == 1 {
        "A little more focus now will make tomorrow easier."@
    } else if i == 2 {
        "Keep going — your effort today matters."@
    } else if i == 3 {
        "One steady push and you'll close the day strong."@
    } else if i == 4 {
        "You're building momentum — stay with it."@
    } else if i == 5 {
        "Every tracked minute moves you forward."@
    } else if i == 6 {
        "Finish with confidence — you can do it."@
    } else {
        "Your future self will thank you for this final stretch."@
    }
}

/// The phrase with the given number, counted from zero round the list of
/// eight.
pub fn phrase_for(index: u32) -> (phrase: &'static str)
    ensures
        phrase@ == phrase_of(index as nat),
{
    let i: u32 = index % 8;
    if i == 0 {
        "Small progress is still progress — you've got this."
    } else if i == 1 {
        "A little more focus now will make tomorrow easier."
    } else if i == 2 {
        "Keep going — your effort today matters."
    } else if i == 3 {
        "One steady push and you'll close the day strong."
    } else if i == 4 {
        "You're building momentum — stay with it."
    } else if i == 5 {
        "Every tracked minute moves you forward."
    } else if i == 6 {
        "Finish with confidence — you can do it."
    } else {
        "Your future self will thank you for this final stretch."
    }
}

/// Reads the system clock with `SystemTime::now` and gives the nanoseconds
/// within the current second, or zero where the clock reads earlier than the
/// Unix epoch. Nothing is promised of the value.
#[verifier::external_body]
fn clock_subsec_nanos() -> u32 {
    std::time::SystemTime::now().duration_since(std::time::UNIX_EPOCH).map(
        |d| d.subsec_nanos(),
    ).unwrap_or(0)
}

/// One of the eight phrases, picked by the clock.
pub fn motivational_phrase() -> (phrase: &'static str)
    ensures
        exists|index: nat| phrase@ == phrase_of(index),
{
    let nanos = clock_subsec_nanos();
    let phrase = phrase_for(nanos);
    assert(phrase@ == phrase_of(nanos as nat));
    phrase
}

} // verus!
