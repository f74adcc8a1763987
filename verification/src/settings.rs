//! The settings of the application and the rules that keep them sane.

use crate::text::{chars_of, string_of, trim_chars, trimmed};
use vstd::prelude::*;

verus! {

/// The format of a time of day in the settings.
pub const WORKDAY_TIME_FORMAT: &'static str = "%H:%M";

/// The settings of the application.
#[derive(Debug)]
pub struct Config {
    /// Minutes between two notifications of a running timer.
    pub timer_notification_interval: u32,
    /// Hours in a working day.
    pub workday_hours: u8,
    /// When the working day begins, as `HH:MM`.
    pub workday_start_time: String,
    /// When the working day ends, as `HH:MM`.
    pub workday_end_time: String,
}

impl Default for Config {
    fn default() -> (config: Self)
        ensures
            config.timer_notification_interval == 15,
            config.workday_hours == 8,
            config.workday_start_time@ == "09:00"@,
            config.workday_end_time@ == "17:00"@,
    {
        Config {
            timer_notification_interval: 15,
            workday_hours: 8,
            workday_start_time: "09:00".to_owned(),
            workday_end_time: "17:00".to_owned(),
        }
    }
}

/// The hour and minute that `chrono::NaiveTime::parse_from_str` reads from a
/// text in a format; nothing where it reads no time.
pub uninterp spec fn clock_time_of(text: Seq<char>, format: Seq<char>) -> Option<(u32, u32)>;

/// Reads a time of day with `NaiveTime::parse_from_str` and gives its hour
/// and minute. The outcome depends on text and format alone and is named
/// `clock_time_of`.
#[verifier::external_body]
fn parse_clock_time(text: &str, format: &str) -> (time: Option<(u32, u32)>)
    ensures
        time == clock_time_of(text@, format@),
{
    chrono::NaiveTime::parse_from_str(text, format).ok().map(
        |t| (chrono::Timelike::hour(&t), chrono::Timelike::minute(&t)),
    )
}

/// The hours of a working day, kept between 1 and 24.
pub open spec fn workday_hours_of(hours: u8) -> u64 {
    if hours < 1 {
        1
    } else if hours > 24 {
        24
    } else {
        hours as u64
    }
}

/// The hours of a working day, kept between 1 and 24.
pub fn sanitize_workday_hours(hours: u8) -> (kept: u64)
    ensures
        kept == workday_hours_of(hours),
        1 <= kept <= 24,
{
    if hours < 1 {
        1
    } else if hours > 24 {
        24
    } else {
        hours as u64
    }
}

/// The time of day that a setting holds: what the trimmed text reads as in
/// the format `%H:%M`.
pub open spec fn workday_time_of(value: Seq<char>) -> Option<(u32, u32)> {
    clock_time_of(trimmed(value), WORKDAY_TIME_FORMAT@)
}

/// The time of day that a setting holds, as hour and minute.
pub fn parse_workday_time(value: &str) -> (time: Option<(u32, u32)>)
    ensures
        time == workday_time_of(value@),
{
    let chars = chars_of(value);
    let text = string_of(&trim_chars(&chars));
    parse_clock_time(text.as_str(), WORKDAY_TIME_FORMAT)
}

/// A time setting as it is kept: the trimmed text where it is not empty and
/// reads as a time of day, the fallback else.
pub open spec fn workday_time_text_of(value: Seq<char>, fallback: Seq<char>) -> Seq<char> {
    let text = trimmed(value);
    if text.len() > 0 && clock_time_of(trimmed(text), WORKDAY_TIME_FORMAT@) is Some {
        text
    } else {
        fallback
    }
}

/// A time setting as it is kept, given what the trimmed text reads as.
pub fn keep_workday_time(value: &str, time: Option<(u32, u32)>, fallback: &str) -> (kept: String)
    ensures
        kept@ == if trimmed(value@).len() > 0 && time is Some {
            trimmed(value@)
        } else {
            fallback@
        },
{
    let chars = chars_of(value);
    let text = trim_chars(&chars);
    if text.len() > 0 && time.is_some() {
        string_of(&text)
    } else {
        fallback.to_owned()
    }
}

/// A time setting as it is kept: the trimmed text where it reads as a time
/// of day, the fallback else.
pub fn sanitize_workday_time(value: String, fallback: &str) -> (kept: String)
    ensures
        kept@ == workday_time_text_of(value@, fallback@),
{
    let chars = chars_of(value.as_str());
    let text = string_of(&trim_chars(&chars));
    let time = parse_workday_time(text.as_str());
    proof {
        crate::settings::lemma_trimmed_twice(value@);
    }
    keep_workday_time(value.as_str(), time, fallback)
}

/// Trimming a trimmed text changes nothing.
pub proof fn lemma_trimmed_twice(s: Seq<char>)
    ensures
        trimmed(trimmed(s)) == trimmed(s),
{
    crate::text::lemma_trimmed_start_len(s);
    let a = crate::text::trimmed_start(s);
    crate::text::lemma_trimmed_end_len(a);
    let b = crate::text::trimmed_end(a);
    // b is a prefix of a; where it is not empty it starts like a and ends in
    // a character that is not whitespace.
    if b.len() > 0 {
        assert(b[0] == a[0]);
        assert(crate::text::trimmed_start(b) == b);
        assert(crate::text::trimmed_end(b) == b);
    } else {
        assert(crate::text::trimmed_start(b) == b);
        assert(crate::text::trimmed_end(b) == b);
    }
}

/// The settings as they are kept: hours between 1 and 24, times of day that
/// read as such or else `09:00` and `17:00`, and an interval of at least one
/// minute.
pub fn normalize_config(config: Config) -> (kept: Config)
    ensures
        kept.workday_hours == workday_hours_of(config.workday_hours),
        kept.workday_start_time@ == workday_time_text_of(config.workday_start_time@, "09:00"@),
        kept.workday_end_time@ == workday_time_text_of(config.workday_end_time@, "17:00"@),
        kept.timer_notification_interval == if config.timer_notification_interval == 0 {
            1u32
        } else {
            config.timer_notification_interval
        },
{
    let hours = sanitize_workday_hours(config.workday_hours);
    Config {
        timer_notification_interval: if config.timer_notification_interval == 0 {
            1
        } else {
            config.timer_notification_interval
        },
        workday_hours: hours as u8,
        workday_start_time: sanitize_workday_time(config.workday_start_time, "09:00"),
        workday_end_time: sanitize_workday_time(config.workday_end_time, "17:00"),
    }
}

/// The pause between two notifications of a running timer, in seconds: the
/// configured minutes, at least one.
pub fn notification_interval_secs(config: &Config) -> (secs: u64)
    ensures
        secs == 60 * if config.timer_notification_interval == 0 {
            1
        } else {
            config.timer_notification_interval as int
        },
{
    let minutes: u64 = if config.timer_notification_interval == 0 {
        1
    } else {
        config.timer_notification_interval as u64
    };
    minutes * 60
}

} // verus!
