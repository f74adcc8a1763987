//! Durations as people write them (`1w 2d 3h 4m`), in seconds and in ISO 8601.

use crate::text::{
    append_str, chars_of, decimal_of, lowercase_of, parse_u64_chars, parsed_u64, push_decimal,
    str_eq, string_of, trim_str, trimmed,
};
use vstd::prelude::*;

verus! {

/// A duration token: a run of digits, optional whitespace, and one of the
/// units `w`, `d`, `h`, `m`.
pub const DURATION_TOKEN_PATTERN: &'static str = "(\\d+)\\s*(w|d|h|m)";

/// Working days in a week.
pub const WORKDAYS_PER_WEEK: u64 = 5;

/// The groups of one match: the text of each capture group, the whole match
/// first, or nothing for a group that took no part in the match.
pub type Groups = Vec<Option<String>>;

/// The texts of the groups of one match.
pub open spec fn groups_of(groups: Seq<Option<String>>) -> Seq<Option<Seq<char>>> {
    Seq::new(
        groups.len(),
        |i: int|
            match groups[i] {
                Some(text) => Some(text@),
                None => None,
            },
    )
}

/// The texts of the groups of every match.
pub open spec fn captures_of(captures: Seq<Groups>) -> Seq<Seq<Option<Seq<char>>>> {
    Seq::new(captures.len(), |i: int| groups_of(captures[i]@))
}

/// The texts of the groups of every match, where the pattern compiled.
pub open spec fn opt_captures(found: Option<Vec<Groups>>) -> Option<Seq<Seq<Option<Seq<char>>>>> {
    match found {
        Some(captures) => Some(captures_of(captures@)),
        None => None,
    }
}

/// The successive non-overlapping matches of a pattern in a text, as
/// `regex::Regex::captures_iter` yields them, each with the text of its
/// capture groups; nothing where `regex::Regex::new` rejects the pattern.
pub uninterp spec fn regex_captures_of(pattern: Seq<char>, text: Seq<char>) -> Option<
    Seq<Seq<Option<Seq<char>>>>,
>;

/// Compiles a pattern with `Regex::new` and collects what
/// `Regex::captures_iter` yields on the text: for every match, the text of
/// each group as `Captures::iter` and `Match::as_str` give it. The outcome
/// depends on pattern and text alone and is named `regex_captures_of`.
#[verifier::external_body]
fn regex_captures(pattern: &str, text: &str) -> (found: Option<Vec<Groups>>)
    ensures
        opt_captures(found) == regex_captures_of(pattern@, text@),
{
    let re = regex::Regex::new(pattern).ok()?;
    Some(
        re.captures_iter(text).map(
            |c| c.iter().map(|g| g.map(|m| m.as_str().to_string())).collect(),
        ).collect(),
    )
}

/// The sums of the values of the tokens, by unit.
pub struct DurationSums {
    pub weeks: nat,
    pub days: nat,
    pub hours: nat,
    pub minutes: nat,
}

/// The parts of a duration.
#[derive(Clone, Copy, Debug, PartialEq, Eq, Structural)]
pub struct DurationParts {
    pub weeks: u64,
    pub days: u64,
    pub hours: u64,
    pub minutes: u64,
}

impl View for DurationParts {
    type V = DurationSums;

    open spec fn view(&self) -> DurationSums {
        DurationSums {
            weeks: self.weeks as nat,
            days: self.days as nat,
            hours: self.hours as nat,
            minutes: self.minutes as nat,
        }
    }
}

/// The value of a token: the number that its first group denotes.
pub open spec fn token_value_of(groups: Seq<Option<Seq<char>>>) -> Option<u64> {
    if groups.len() > 1 {
        match groups[1] {
            Some(digits) => parsed_u64(digits),
            None => None,
        }
    } else {
        None
    }
}

/// The unit of a token: its second group.
pub open spec fn token_unit_of(groups: Seq<Option<Seq<char>>>) -> Option<Seq<char>> {
    if groups.len() > 2 {
        groups[2]
    } else {
        None
    }
}

/// The sums with one more token: the value goes to the sum of its unit, and
/// nowhere for a unit other than `w`, `d`, `h`, `m`.
pub open spec fn with_token(sums: DurationSums, unit: Option<Seq<char>>, value: u64) -> DurationSums {
    if unit == Some("w"@) {
        DurationSums { weeks: (sums.weeks + value) as nat, ..sums }
    } else if unit == Some("d"@) {
        DurationSums { days: (sums.days + value) as nat, ..sums }
    } else if unit == Some("h"@) {
        DurationSums { hours: (sums.hours + value) as nat, ..sums }
    } else if unit == Some("m"@) {
        DurationSums { minutes: (sums.minutes + value) as nat, ..sums }
    } else {
        sums
    }
}

/// The sums of all tokens, or nothing where the value of some token is not a
/// number that fits in 64 bits.
pub open spec fn sums_of(captures: Seq<Seq<Option<Seq<char>>>>) -> Option<DurationSums>
    decreases captures.len(),
{
    if captures.len() == 0 {
        Some(DurationSums { weeks: 0, days: 0, hours: 0, minutes: 0 })
    } else {
        match sums_of(captures.drop_last()) {
            Some(sums) => match token_value_of(captures.last()) {
                Some(value) => Some(with_token(sums, token_unit_of(captures.last()), value)),
                None => None,
            },
            None => None,
        }
    }
}

impl DurationSums {
    /// Whether all four sums are zero.
    pub open spec fn is_zero(self) -> bool {
        self.weeks == 0 && self.days == 0 && self.hours == 0 && self.minutes == 0
    }

    /// Whether each of the four sums fits in 64 bits.
    pub open spec fn fits(self) -> bool {
        self.weeks <= u64::MAX && self.days <= u64::MAX && self.hours <= u64::MAX && self.minutes
            <= u64::MAX
    }

    /// The duration in seconds, a week being five working days and a day
    /// `workday_hours` hours.
    pub open spec fn seconds(self, workday_hours: u64) -> nat {
        (self.weeks * 5 * workday_hours * 3600 + self.days * workday_hours * 3600 + self.hours
            * 3600 + self.minutes * 60) as nat
    }
}

/// The parts that the tokens add up to: nothing where a value is no number,
/// or where a sum does not fit in 64 bits.
pub open spec fn parts_of(captures: Seq<Seq<Option<Seq<char>>>>) -> Option<DurationSums> {
    match sums_of(captures) {
        Some(sums) => if sums.fits() {
            Some(sums)
        } else {
            None
        },
        None => None,
    }
}

/// The seconds that the tokens add up to: nothing where there is no token
/// with a value above zero, where a value is no number, or where a sum or the
/// total does not fit in 64 bits.
pub open spec fn seconds_of(captures: Seq<Seq<Option<Seq<char>>>>, workday_hours: u64) -> Option<
    u64,
> {
    match parts_of(captures) {
        Some(sums) => if !sums.is_zero() && sums.seconds(workday_hours) <= u64::MAX {
            Some(sums.seconds(workday_hours) as u64)
        } else {
            None
        },
        None => None,
    }
}

/// The text that the tokens are looked for in: trimmed and in lower case.
pub open spec fn normalized_of(input: Seq<char>) -> Seq<char> {
    lowercase_of(trimmed(input))
}

/// The seconds that a tracker duration such as `1w 2d 3h 4m` stands for.
pub open spec fn tracker_seconds_of(input: Seq<char>, workday_hours: u64) -> Option<u64> {
    let text = normalized_of(input);
    if text.len() == 0 {
        None
    } else {
        match regex_captures_of(DURATION_TOKEN_PATTERN@, text) {
            Some(captures) => seconds_of(captures, workday_hours),
            None => None,
        }
    }
}

/// If the sums of a prefix of the tokens are undefined or do not fit, so are
/// the sums of all tokens; else each sum of all tokens is at least the sum of
/// the prefix.
pub proof fn lemma_sums_grow(captures: Seq<Seq<Option<Seq<char>>>>, count: int)
    requires
        0 <= count <= captures.len(),
    ensures
        sums_of(captures.take(count)) is None ==> sums_of(captures) is None,
        sums_of(captures) matches Some(all) ==> sums_of(captures.take(count)) matches Some(part)
            && part.weeks <= all.weeks && part.days <= all.days && part.hours <= all.hours
            && part.minutes <= all.minutes,
    decreases captures.len() - count,
{
    if count == captures.len() {
        assert(captures.take(count) =~= captures);
    } else {
        let shorter = captures.drop_last();
        assert(shorter.take(count) =~= captures.take(count));
        lemma_sums_grow(shorter, count);
    }
}

/// The value of a token.
fn token_value(groups: &Groups) -> (value: Option<u64>)
    ensures
        value == token_value_of(groups_of(groups@)),
{
    if groups.len() > 1 {
        match &groups[1] {
            Some(digits) => {
                let chars = chars_of(digits.as_str());
                parse_u64_chars(&chars)
            },
            None => None,
        }
    } else {
        None
    }
}

/// Tells whether the unit of a token is `unit`.
fn token_unit_is(groups: &Groups, unit: &str) -> (same: bool)
    ensures
        same == (token_unit_of(groups_of(groups@)) == Some(unit@)),
{
    if groups.len() > 2 {
        match &groups[2] {
            Some(text) => str_eq(text.as_str(), unit),
            None => false,
        }
    } else {
        false
    }
}

/// The parts that the tokens of a text add up to.
pub fn parts_from_captures(captures: &Vec<Groups>) -> (parts: Option<DurationParts>)
    ensures
        match parts {
            Some(p) => parts_of(captures_of(captures@)) == Some(p@),
            None => parts_of(captures_of(captures@)) is None,
        },
{
    let ghost all = captures_of(captures@);
    let mut parts = DurationParts { weeks: 0, days: 0, hours: 0, minutes: 0 };
    let mut i: usize = 0;
    assert(all.take(0) =~= Seq::<Seq<Option<Seq<char>>>>::empty());
    while i < captures.len()
        invariant
            i <= captures.len(),
            all == captures_of(captures@),
            sums_of(all.take(i as int)) == Some(parts@),
        decreases captures.len() - i,
    {
        let groups = &captures[i];
        proof {
            assert(all.take(i + 1).drop_last() =~= all.take(i as int));
            assert(all.take(i + 1).last() == groups_of(groups@));
            lemma_sums_grow(all, i + 1);
            reveal_strlit("w");
            reveal_strlit("d");
            reveal_strlit("h");
            reveal_strlit("m");
        }
        let value: u64 = match token_value(groups) {
            Some(value) => value,
            None => {
                return None;
            },
        };
        let target: u64 = if token_unit_is(groups, "w") {
            parts.weeks
        } else if token_unit_is(groups, "d") {
            parts.days
        } else if token_unit_is(groups, "h") {
            parts.hours
        } else if token_unit_is(groups, "m") {
            parts.minutes
        } else {
            0
        };
        if value > u64::MAX - target {
            return None;
        }
        if token_unit_is(groups, "w") {
            parts.weeks = parts.weeks + value;
        } else if token_unit_is(groups, "d") {
            parts.days = parts.days + value;
        } else if token_unit_is(groups, "h") {
            parts.hours = parts.hours + value;
        } else if token_unit_is(groups, "m") {
            parts.minutes = parts.minutes + value;
        }
        i += 1;
    }
    assert(all.take(captures.len() as int) =~= all);
    Some(parts)
}

/// The product of two numbers, or nothing where it does not fit in 64 bits.
fn checked_product(a: u64, b: u64) -> (product: Option<u64>)
    ensures
        match product {
            Some(p) => p == a * b,
            None => a * b > u64::MAX,
        },
{
    a.checked_mul(b)
}

/// The seconds that the parts of a duration stand for.
pub fn seconds_from_parts(parts: &DurationParts, workday_hours: u64) -> (seconds: Option<u64>)
    ensures
        match seconds {
            Some(s) => s == parts@.seconds(workday_hours),
            None => parts@.seconds(workday_hours) > u64::MAX,
        },
{
    let ghost w = parts.weeks as int;
    let ghost d = parts.days as int;
    let ghost h = parts.hours as int;
    let ghost m = parts.minutes as int;
    let ghost wh = workday_hours as int;
    proof {
        assert(w * 5 * wh * 3600 == (w * wh) * 18000) by (nonlinear_arith);
        assert(d * wh * 3600 == (d * wh) * 3600) by (nonlinear_arith);
        assert(w * wh >= 0 && d * wh >= 0) by (nonlinear_arith)
            requires
                w >= 0,
                d >= 0,
                wh >= 0,
        ;
    }
    let week_hours: u64 = match checked_product(parts.weeks, workday_hours) {
        Some(v) => v,
        None => {
            return None;
        },
    };
    let day_hours: u64 = match checked_product(parts.days, workday_hours) {
        Some(v) => v,
        None => {
            return None;
        },
    };
    let total: u128 = week_hours as u128 * 18000 + day_hours as u128 * 3600 + parts.hours as u128
        * 3600 + parts.minutes as u128 * 60;
    if total > u64::MAX as u128 {
        None
    } else {
        Some(total as u64)
    }
}

/// The seconds that the tokens of a text add up to.
pub fn seconds_from_captures(captures: &Vec<Groups>, workday_hours: u64) -> (seconds: Option<u64>)
    ensures
        seconds == seconds_of(captures_of(captures@), workday_hours),
{
    match parts_from_captures(captures) {
        Some(parts) => {
            if parts.weeks == 0 && parts.days == 0 && parts.hours == 0 && parts.minutes == 0 {
                None
            } else {
                seconds_from_parts(&parts, workday_hours)
            }
        },
        None => None,
    }
}

/// The text that the tokens are looked for in: trimmed and in lower case.
pub fn normalize_duration(input: &str) -> (text: String)
    ensures
        text@ == normalized_of(input@),
{
    let t = trim_str(input);
    t.as_str().to_lowercase()
}

/// The seconds that a tracker duration such as `1w 2d 3h 4m` stands for, a
/// week being five working days and a day `workday_hours` hours. A blank
/// text, a text without a token above zero, and a duration that does not fit
/// in 64 bits give nothing.
pub fn parse_tracker_duration_to_seconds(input: &str, workday_hours: u64) -> (seconds: Option<u64>)
    ensures
        seconds == tracker_seconds_of(input@, workday_hours),
{
    let text = normalize_duration(input);
    if text.as_str().is_empty() {
        return None;
    }
    match regex_captures(DURATION_TOKEN_PATTERN, text.as_str()) {
        Some(captures) => seconds_from_captures(&captures, workday_hours),
        None => None,
    }
}

/// The ISO 8601 form of a duration: `P`, weeks and days where they are not
/// zero, then `T` with hours and minutes where one of them is not zero.
pub open spec fn iso_of(parts: DurationSums) -> Seq<char> {
    let weeks = if parts.weeks > 0 {
        "P"@ + decimal_of(parts.weeks) + "W"@
    } else {
        "P"@
    };
    let days = if parts.days > 0 {
        weeks + decimal_of(parts.days) + "D"@
    } else {
        weeks
    };
    if parts.hours > 0 || parts.minutes > 0 {
        let hours = if parts.hours > 0 {
            days + "T"@ + decimal_of(parts.hours) + "H"@
        } else {
            days + "T"@
        };
        if parts.minutes > 0 {
            hours + decimal_of(parts.minutes) + "M"@
        } else {
            hours
        }
    } else {
        days
    }
}

/// The ISO 8601 form of a duration.
pub fn iso_duration(parts: &DurationParts) -> (iso: String)
    ensures
        iso@ == iso_of(parts@),
{
    let mut out = chars_of("P");
    if parts.weeks > 0 {
        push_decimal(&mut out, parts.weeks);
        append_str(&mut out, "W");
    }
    if parts.days > 0 {
        push_decimal(&mut out, parts.days);
        append_str(&mut out, "D");
    }
    if parts.hours > 0 || parts.minutes > 0 {
        append_str(&mut out, "T");
        if parts.hours > 0 {
            push_decimal(&mut out, parts.hours);
            append_str(&mut out, "H");
        }
        if parts.minutes > 0 {
            push_decimal(&mut out, parts.minutes);
            append_str(&mut out, "M");
        }
    }
    proof {
        assert(out@ =~= iso_of(parts@));
    }
    string_of(&out)
}

/// The parts of a duration that the user typed, as far as integers decide
/// it: the sums of the tokens where one of them is above zero, else the text
/// as a whole number of minutes where it is one.
pub open spec fn reading_of(text: Seq<char>, captures: Seq<Seq<Option<Seq<char>>>>) -> Option<
    DurationSums,
> {
    match parts_of(captures) {
        Some(sums) => if !sums.is_zero() {
            Some(sums)
        } else {
            match parsed_u64(text) {
                Some(minutes) => Some(
                    DurationSums { weeks: 0, days: 0, hours: 0, minutes: minutes as nat },
                ),
                None => None,
            }
        },
        None => None,
    }
}

/// What `parse_duration_to_iso` returns for a normalized text, its tokens,
/// and the hours and minutes that a reading of the text as a decimal number
/// of hours gives.
pub open spec fn iso_outcome_of(
    text: Seq<char>,
    captures: Option<Seq<Seq<Option<Seq<char>>>>>,
    decimal_hours: Option<(u64, u64)>,
) -> Result<Seq<char>, Seq<char>> {
    if text.len() == 0 {
        Err("Duration cannot be empty"@)
    } else {
        match captures {
            Some(found) => if parts_of(found) is None {
                Err("Invalid duration value"@)
            } else {
                let parts = match reading_of(text, found) {
                    Some(sums) => sums,
                    None => match decimal_hours {
                        Some((hours, minutes)) => DurationSums {
                            weeks: 0,
                            days: 0,
                            hours: hours as nat,
                            minutes: minutes as nat,
                        },
                        None => DurationSums { weeks: 0, days: 0, hours: 0, minutes: 0 },
                    },
                };
                if parts.is_zero() {
                    Err("Duration resolves to zero"@)
                } else {
                    Ok(iso_of(parts))
                }
            },
            None => Err("Invalid duration value"@),
        }
    }
}

/// The ISO 8601 duration for a normalized text and its tokens.
pub fn iso_from_captures(text: &str, captures: &Vec<Groups>, decimal_hours: Option<(u64, u64)>) -> (iso:
    Result<String, String>)
    requires
        text@.len() > 0,
    ensures
        crate::request::result_text(iso) == iso_outcome_of(
            text@,
            Some(captures_of(captures@)),
            decimal_hours,
        ),
{
    let mut parts = match parts_from_captures(captures) {
        Some(parts) => parts,
        None => {
            return Err("Invalid duration value".to_owned());
        },
    };
    if parts.weeks == 0 && parts.days == 0 && parts.hours == 0 && parts.minutes == 0 {
        let chars = chars_of(text);
        match parse_u64_chars(&chars) {
            Some(minutes) => {
                parts.minutes = minutes;
            },
            None => match decimal_hours {
                Some((hours, minutes)) => {
                    parts.hours = hours;
                    parts.minutes = minutes;
                },
                None => {},
            },
        }
    }
    if parts.weeks == 0 && parts.days == 0 && parts.hours == 0 && parts.minutes == 0 {
        return Err("Duration resolves to zero".to_owned());
    }
    Ok(iso_duration(&parts))
}

/// The ISO 8601 duration that a text such as `1w 2d 3h 4m` or `90` stands
/// for. Tokens are summed by unit; a text without a token above zero counts
/// as minutes where it is a whole number, and else as the hours and minutes
/// in `decimal_hours`, which the caller gets by reading the trimmed,
/// lower-case text as a decimal number of hours.
pub fn parse_duration_to_iso(input: &str, decimal_hours: Option<(u64, u64)>) -> (iso: Result<
    String,
    String,
>)
    ensures
        crate::request::result_text(iso) == iso_outcome_of(
            normalized_of(input@),
            regex_captures_of(DURATION_TOKEN_PATTERN@, normalized_of(input@)),
            decimal_hours,
        ),
{
    let text = normalize_duration(input);
    if text.as_str().is_empty() {
        return Err("Duration cannot be empty".to_owned());
    }
    match regex_captures(DURATION_TOKEN_PATTERN, text.as_str()) {
        Some(captures) => iso_from_captures(text.as_str(), &captures, decimal_hours),
        None => Err("Invalid duration value".to_owned()),
    }
}

} // verus!
