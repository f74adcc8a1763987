//! The time logged on a day, summed over the entries of a worklog.

use crate::duration::{parse_tracker_duration_to_seconds, tracker_seconds_of};
use crate::text::{chars_eq, chars_of, string_of, trim_chars, trimmed};
use vstd::prelude::*;

verus! {

/// What the sum needs of a worklog entry.
#[derive(Debug)]
pub struct LoggedEntry {
    /// The key of the issue that the work was logged on.
    pub issue_key: Option<String>,
    /// Whether the entry starts on the day that is summed.
    pub on_day: bool,
    /// The duration as the tracker writes it.
    pub duration: Option<String>,
}

/// The texts of a sequence of strings.
pub open spec fn strings_of(items: Seq<String>) -> Seq<Seq<char>> {
    Seq::new(items.len(), |i: int| items[i]@)
}

/// The keys that count: each key trimmed, blank keys left out, and every key
/// once, in the order of its first occurrence.
pub open spec fn unique_keys_of(keys: Seq<Seq<char>>) -> Seq<Seq<char>>
    decreases keys.len(),
{
    if keys.len() == 0 {
        Seq::empty()
    } else {
        let before = unique_keys_of(keys.drop_last());
        let key = trimmed(keys.last());
        if key.len() == 0 || before.contains(key) {
            before
        } else {
            before.push(key)
        }
    }
}

/// Whether an entry counts: it starts on the day, and where keys are given
/// it belongs to an issue whose trimmed key is one of them.
pub open spec fn entry_counts(entry: LoggedEntry, keys: Seq<Seq<char>>) -> bool {
    &&& keys.len() > 0 ==> (entry.issue_key matches Some(key) && keys.contains(trimmed(key@)))
    &&& entry.on_day
}

/// The seconds of an entry: what its duration stands for, or zero.
pub open spec fn entry_seconds_of(entry: LoggedEntry, workday_hours: u64) -> u64 {
    match entry.duration {
        Some(text) => match tracker_seconds_of(text@, workday_hours) {
            Some(seconds) => seconds,
            None => 0,
        },
        None => 0,
    }
}

/// The sum of two numbers, or the largest number where the sum does not fit.
pub open spec fn saturating_sum(a: u64, b: u64) -> u64 {
    if a + b > u64::MAX {
        u64::MAX
    } else {
        (a + b) as u64
    }
}

/// The seconds of all entries that count, added up without overflow.
pub open spec fn logged_seconds_of(
    entries: Seq<LoggedEntry>,
    keys: Seq<Seq<char>>,
    workday_hours: u64,
) -> u64
    decreases entries.len(),
{
    if entries.len() == 0 {
        0
    } else {
        let before = logged_seconds_of(entries.drop_last(), keys, workday_hours);
        if entry_counts(entries.last(), keys) {
            saturating_sum(before, entry_seconds_of(entries.last(), workday_hours))
        } else {
            before
        }
    }
}

/// Tells whether the keys hold the given key.
fn holds_key(keys: &Vec<String>, key: &Vec<char>) -> (found: bool)
    ensures
        found == strings_of(keys@).contains(key@),
{
    let mut i: usize = 0;
    while i < keys.len()
        invariant
            i <= keys.len(),
            forall|k: int| 0 <= k < i ==> strings_of(keys@)[k] != key@,
        decreases keys.len() - i,
    {
        let candidate = chars_of(keys[i].as_str());
        if chars_eq(&candidate, key) {
            assert(strings_of(keys@)[i as int] == key@);
            return true;
        }
        i += 1;
    }
    false
}

/// The keys that count: trimmed, without blanks, every key once.
pub fn unique_issue_keys(keys: &Vec<String>) -> (unique: Vec<String>)
    ensures
        strings_of(unique@) == unique_keys_of(strings_of(keys@)),
{
    let ghost all = strings_of(keys@);
    let mut unique: Vec<String> = Vec::new();
    let mut i: usize = 0;
    assert(all.take(0) =~= Seq::<Seq<char>>::empty());
    assert(strings_of(unique@) =~= Seq::<Seq<char>>::empty());
    while i < keys.len()
        invariant
            i <= keys.len(),
            all == strings_of(keys@),
            strings_of(unique@) == unique_keys_of(all.take(i as int)),
        decreases keys.len() - i,
    {
        let chars = chars_of(keys[i].as_str());
        let key = trim_chars(&chars);
        proof {
            assert(all.take(i + 1).drop_last() =~= all.take(i as int));
            assert(all.take(i + 1).last() == keys@[i as int]@);
        }
        if key.len() > 0 && !holds_key(&unique, &key) {
            let ghost before = strings_of(unique@);
            unique.push(string_of(&key));
            assert(strings_of(unique@) =~= before.push(key@));
        }
        i += 1;
    }
    assert(all.take(keys.len() as int) =~= all);
    unique
}

/// Tells whether an entry counts.
fn counts(entry: &LoggedEntry, keys: &Vec<String>) -> (counted: bool)
    ensures
        counted == entry_counts(*entry, strings_of(keys@)),
{
    if keys.len() > 0 {
        match &entry.issue_key {
            Some(key) => {
                let chars = chars_of(key.as_str());
                let trimmed_key = trim_chars(&chars);
                if !holds_key(keys, &trimmed_key) {
                    return false;
                }
            },
            None => {
                return false;
            },
        }
    }
    entry.on_day
}

/// The seconds of all entries that count for the given keys.
pub fn logged_seconds(entries: &Vec<LoggedEntry>, keys: &Vec<String>, workday_hours: u64) -> (total:
    u64)
    ensures
        total == logged_seconds_of(entries@, strings_of(keys@), workday_hours),
{
    let mut total: u64 = 0;
    let mut i: usize = 0;
    assert(entries@.take(0) =~= Seq::<LoggedEntry>::empty());
    while i < entries.len()
        invariant
            i <= entries.len(),
            total == logged_seconds_of(entries@.take(i as int), strings_of(keys@), workday_hours),
        decreases entries.len() - i,
    {
        let entry = &entries[i];
        proof {
            assert(entries@.take(i + 1).drop_last() =~= entries@.take(i as int));
            assert(entries@.take(i + 1).last() == *entry);
        }
        if counts(entry, keys) {
            let seconds: u64 = match &entry.duration {
                Some(text) => match parse_tracker_duration_to_seconds(text.as_str(), workday_hours) {
                    Some(seconds) => seconds,
                    None => 0,
                },
                None => 0,
            };
            total = if seconds > u64::MAX - total {
                u64::MAX
            } else {
                total + seconds
            };
        }
        i += 1;
    }
    assert(entries@.take(entries.len() as int) =~= entries@);
    total
}

/// The seconds logged on the day on the given issues: the entries that start
/// on the day and belong to one of the issues, or the entries that start on
/// the day where no issue with a key that is not blank is given.
pub fn today_logged_seconds(entries: &Vec<LoggedEntry>, issue_keys: &Vec<String>, workday_hours: u64) -> (total:
    u64)
    ensures
        total == logged_seconds_of(
            entries@,
            unique_keys_of(strings_of(issue_keys@)),
            workday_hours,
        ),
{
    let keys = unique_issue_keys(issue_keys);
    logged_seconds(entries, &keys, workday_hours)
}

} // verus!
