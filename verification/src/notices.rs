//! The notifications of the application: their texts, and when the one at the
//! end of the working day is due.

use crate::display::{elapsed_text_of, format_elapsed};
use crate::text::{
    append_str, chars_of, collapse_chars, collapsed, string_of, truncate_chars, truncated,
};
use crate::timer::TimerState;
use vstd::prelude::*;

verus! {

/// Title and body of a notification.
#[derive(Debug)]
pub struct Notice {
    pub title: String,
    pub body: String,
}

/// The body of the notice of a started timer: the summary with whitespace
/// collapsed and cut to 80 characters, or a fixed text where nothing is left
/// of it.
pub open spec fn started_body_of(summary: Option<Seq<char>>) -> Seq<char> {
    match summary {
        Some(text) => if truncated(collapsed(text), 80).len() == 0 {
            "Tracking time from tray"@
        } else {
            truncated(collapsed(text), 80)
        },
        None => "Tracking time from tray"@,
    }
}

/// The notice of a started timer.
pub fn timer_started_notice(issue_key: &str, summary: Option<&str>) -> (notice: Notice)
    ensures
        notice.title@ == "Timer started: "@ + issue_key@,
        notice.body@ == started_body_of(crate::request::opt_str(summary)),
{
    let title = crate::request::concat2("Timer started: ", issue_key);
    let body = match summary {
        Some(text) => {
            let chars = chars_of(text);
            let cut = truncate_chars(&collapse_chars(&chars), 80);
            if cut.len() == 0 {
                "Tracking time from tray".to_owned()
            } else {
                string_of(&cut)
            }
        },
        None => "Tracking time from tray".to_owned(),
    };
    Notice { title, body }
}

/// The notice of a stopped timer.
pub fn timer_stopped_notice(issue_key: &str, elapsed: u64) -> (notice: Notice)
    ensures
        notice.title@ == "Timer stopped: "@ + issue_key@,
        notice.body@ == "Tracked "@ + elapsed_text_of(elapsed),
{
    let title = crate::request::concat2("Timer stopped: ", issue_key);
    let elapsed_text = format_elapsed(elapsed);
    let body = crate::request::concat2("Tracked ", elapsed_text.as_str());
    Notice { title, body }
}

/// The notice of a timer that keeps running: the key as title, and the
/// summary and the time spent as body.
pub fn timer_running_notice(snapshot: &TimerState) -> (notice: Notice)
    ensures
        notice.title@ == match snapshot.issue_key {
            Some(key) => key@,
            None => "Task timer"@,
        },
        notice.body@ == match snapshot.issue_summary {
            Some(summary) => summary@,
            None => "Timer running"@,
        } + "\nTime spent: "@ + elapsed_text_of(snapshot.elapsed),
{
    let title = match &snapshot.issue_key {
        Some(key) => key.clone(),
        None => "Task timer".to_owned(),
    };
    let elapsed_text = format_elapsed(snapshot.elapsed);
    let body = match &snapshot.issue_summary {
        Some(summary) => crate::request::concat3(
            summary.as_str(),
            "\nTime spent: ",
            elapsed_text.as_str(),
        ),
        None => crate::request::concat3("Timer running", "\nTime spent: ", elapsed_text.as_str()),
    };
    Notice { title, body }
}

/// The seconds of a working day of the given hours.
pub fn expected_workday_seconds(workday_hours: u8) -> (seconds: u64)
    ensures
        seconds == workday_hours * 3600,
{
    workday_hours as u64 * 3600
}

/// The notice at the end of the working day: a wrap-up with an encouraging
/// phrase where less than the working day was tracked, praise else.
pub fn workday_notice(tracked_total: u64, expected_seconds: u64, phrase: &str) -> (notice: Notice)
    ensures
        tracked_total < expected_seconds ==> notice.title@ == "Workday wrap-up"@ && notice.body@
            == "Tracked "@ + elapsed_text_of(tracked_total) + " of "@ + elapsed_text_of(
            expected_seconds,
        ) + " today. "@ + phrase@,
        tracked_total >= expected_seconds ==> notice.title@ == "Great job today!"@ && notice.body@
            == "You tracked "@ + elapsed_text_of(tracked_total) + " today. Have a good evening!"@,
{
    let spent = format_elapsed(tracked_total);
    if tracked_total < expected_seconds {
        let expected = format_elapsed(expected_seconds);
        let mut out = chars_of("Tracked ");
        append_str(&mut out, spent.as_str());
        append_str(&mut out, " of ");
        append_str(&mut out, expected.as_str());
        append_str(&mut out, " today. ");
        append_str(&mut out, phrase);
        Notice { title: "Workday wrap-up".to_owned(), body: string_of(&out) }
    } else {
        Notice {
            title: "Great job today!".to_owned(),
            body: crate::request::concat3(
                "You tracked ",
                spent.as_str(),
                " today. Have a good evening!",
            ),
        }
    }
}

/// Whether the end of the working day is reached: whether the time of day is
/// at or after the end, where the end is known.
pub open spec fn workday_over(hour: u32, minute: u32, end: Option<(u32, u32)>) -> bool {
    match end {
        Some((end_hour, end_minute)) => hour > end_hour || (hour == end_hour && minute
            >= end_minute),
        None => false,
    }
}

/// Tells whether the notice at the end of the working day is due: not yet
/// given on this day, and the end of the working day reached.
pub fn workday_notice_due(
    notified_day: Option<&str>,
    today: &str,
    hour: u32,
    minute: u32,
    end: Option<(u32, u32)>,
) -> (due: bool)
    ensures
        due == (crate::request::opt_str(notified_day) != Some(today@) && workday_over(
            hour,
            minute,
            end,
        )),
{
    let already = match notified_day {
        Some(day) => crate::text::str_eq(day, today),
        None => false,
    };
    if already {
        return false;
    }
    match end {
        Some((end_hour, end_minute)) => hour > end_hour || (hour == end_hour && minute
            >= end_minute),
        None => false,
    }
}

/// The time tracked on a day: what is logged and what the running timer
/// shows, added up without overflow.
pub fn tracked_total(logged_seconds: u64, active_elapsed: u64) -> (total: u64)
    ensures
        total == crate::worklog::saturating_sum(logged_seconds, active_elapsed),
{
    if active_elapsed > u64::MAX - logged_seconds {
        u64::MAX
    } else {
        logged_seconds + active_elapsed
    }
}

} // verus!
