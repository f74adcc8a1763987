use ytracker::display::format_elapsed;
use ytracker::duration::{
    iso_duration, parse_duration_to_iso, parse_tracker_duration_to_seconds, seconds_from_captures,
    seconds_from_parts, DurationParts,
};

fn token(value: &str, unit: &str) -> Vec<Option<String>> {
    vec![
        Some(format!("{}{}", value, unit)),
        Some(value.to_string()),
        Some(unit.to_string()),
    ]
}

#[test]
fn duration_with_all_units_uses_working_days_and_weeks() {
    let expected = (1 * 5 + 2) * 8 * 3600 + 3 * 3600 + 4 * 60;
    assert_eq!(expected, 212_640);
    assert_eq!(parse_tracker_duration_to_seconds("1w 2d 3h 4m", 8), Some(expected));
    assert_eq!(parse_tracker_duration_to_seconds("1w 2d 3h 4m", 6), Some(7 * 6 * 3600 + 3 * 3600 + 240));
    assert_eq!(parse_tracker_duration_to_seconds("1w", 0), Some(0));
}

#[test]
fn duration_tokens_are_found_in_any_case_and_spacing() {
    assert_eq!(parse_tracker_duration_to_seconds("2H 30M", 8), Some(9000));
    assert_eq!(parse_tracker_duration_to_seconds("  5 m ", 8), Some(300));
    assert_eq!(parse_tracker_duration_to_seconds("1h1h", 8), Some(7200));
    assert_eq!(parse_tracker_duration_to_seconds("about 3h of work", 8), Some(10_800));
    assert_eq!(parse_tracker_duration_to_seconds("1.5h", 8), Some(18_000));
    assert_eq!(parse_tracker_duration_to_seconds("PT1H30M", 8), Some(5400));
    assert_eq!(parse_tracker_duration_to_seconds("1d", 24), Some(86_400));
}

#[test]
fn durations_without_a_token_above_zero_give_nothing() {
    for input in ["", "   ", "90", "h", "abc", "0h", "0w 0d 0h 0m", "1 x"] {
        assert_eq!(parse_tracker_duration_to_seconds(input, 8), None, "{:?}", input);
    }
}

#[test]
fn durations_that_do_not_fit_give_nothing() {
    assert_eq!(parse_tracker_duration_to_seconds("99999999999999999999h", 8), None);
    assert_eq!(parse_tracker_duration_to_seconds("18446744073709551615w", 8), None);
    assert_eq!(parse_tracker_duration_to_seconds("18446744073709551615m 1m", 8), None);
    assert_eq!(parse_tracker_duration_to_seconds("18446744073709551615h", 8), None);
    assert_eq!(parse_tracker_duration_to_seconds("307445734561825860m", 8), Some(18446744073709551600));
    assert_eq!(parse_tracker_duration_to_seconds("307445734561825861m", 8), None);
    assert_eq!(parse_tracker_duration_to_seconds("٣h", 8), None);
}

#[test]
fn seconds_are_computed_from_given_tokens() {
    let captures = vec![token("1", "w"), token("2", "d"), token("3", "h"), token("4", "m")];
    assert_eq!(seconds_from_captures(&captures, 8), Some(212_640));
    assert_eq!(seconds_from_captures(&Vec::new(), 8), None);
    assert_eq!(seconds_from_captures(&vec![token("7", "x")], 8), None);
    assert_eq!(seconds_from_captures(&vec![token("x", "h")], 8), None);
    assert_eq!(seconds_from_captures(&vec![token("2", "h"), token("", "m")], 8), None);
    assert_eq!(seconds_from_captures(&vec![vec![Some("2h".to_string())]], 8), None);
    assert_eq!(
        seconds_from_captures(&vec![vec![Some("2".to_string()), Some("2".to_string()), None]], 8),
        None
    );
    let parts = DurationParts { weeks: 0, days: 1, hours: 0, minutes: 1 };
    assert_eq!(seconds_from_parts(&parts, 10), Some(36_060));
    let huge = DurationParts { weeks: u64::MAX, days: 0, hours: 0, minutes: 0 };
    assert_eq!(seconds_from_parts(&huge, 1), None);
    assert_eq!(seconds_from_parts(&huge, 0), Some(0));
}

#[test]
fn iso_durations_hold_only_the_parts_above_zero() {
    assert_eq!(parse_duration_to_iso("1w 2d 3h 4m", None).as_deref(), Ok("P1W2DT3H4M"));
    assert_eq!(parse_duration_to_iso(" 1H ", None).as_deref(), Ok("PT1H"));
    assert_eq!(parse_duration_to_iso("2d", None).as_deref(), Ok("P2D"));
    assert_eq!(parse_duration_to_iso("3w", None).as_deref(), Ok("P3W"));
    assert_eq!(parse_duration_to_iso("45m", None).as_deref(), Ok("PT45M"));
    assert_eq!(parse_duration_to_iso("1h 1h 30m", None).as_deref(), Ok("PT2H30M"));
    assert_eq!(parse_duration_to_iso("1d 15m", Some((9, 9))).as_deref(), Ok("P1DT15M"));
    let parts = DurationParts { weeks: 1, days: 0, hours: 0, minutes: 5 };
    assert_eq!(iso_duration(&parts), "P1WT5M");
}

#[test]
fn a_bare_number_counts_as_minutes_and_a_decimal_as_hours() {
    assert_eq!(parse_duration_to_iso("90", None).as_deref(), Ok("PT90M"));
    assert_eq!(parse_duration_to_iso("90", Some((90, 0))).as_deref(), Ok("PT90M"));
    assert_eq!(parse_duration_to_iso("1.5", Some((1, 30))).as_deref(), Ok("PT1H30M"));
    assert_eq!(parse_duration_to_iso("0.25", Some((0, 15))).as_deref(), Ok("PT15M"));
    assert_eq!(parse_duration_to_iso("2.0", Some((2, 0))).as_deref(), Ok("PT2H"));
}

#[test]
fn durations_that_cannot_be_read_are_refused_with_a_reason() {
    assert_eq!(parse_duration_to_iso("", None), Err("Duration cannot be empty".to_string()));
    assert_eq!(parse_duration_to_iso("  \t", Some((1, 0))), Err("Duration cannot be empty".to_string()));
    assert_eq!(parse_duration_to_iso("abc", None), Err("Duration resolves to zero".to_string()));
    assert_eq!(parse_duration_to_iso("0", Some((3, 0))), Err("Duration resolves to zero".to_string()));
    assert_eq!(parse_duration_to_iso("0h 0m", None), Err("Duration resolves to zero".to_string()));
    assert_eq!(parse_duration_to_iso("0.0", Some((0, 0))), Err("Duration resolves to zero".to_string()));
    assert_eq!(parse_duration_to_iso("٣h", None), Err("Invalid duration value".to_string()));
    assert_eq!(
        parse_duration_to_iso("99999999999999999999h", None),
        Err("Invalid duration value".to_string())
    );
}

#[test]
fn elapsed_time_shows_hours_only_from_one_hour_on() {
    assert_eq!(format_elapsed(0), "0m");
    assert_eq!(format_elapsed(59), "0m");
    assert_eq!(format_elapsed(60), "1m");
    assert_eq!(format_elapsed(3599), "59m");
    assert_eq!(format_elapsed(3600), "1h 00m");
    assert_eq!(format_elapsed(3660), "1h 01m");
    assert_eq!(format_elapsed(4199), "1h 09m");
    assert_eq!(format_elapsed(4200), "1h 10m");
    assert_eq!(format_elapsed(90_061), "25h 01m");
    assert_eq!(format_elapsed(u64::MAX), "5124095576030431h 00m");
}
