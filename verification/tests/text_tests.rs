use ytracker::text::{
    char_is_whitespace, chars_eq_ignore_ascii_case, chars_of, collapse_chars, decimal_string,
    parse_u64_str, string_of, trim_str,
};

#[test]
fn whitespace_agrees_with_the_standard_library_on_every_character() {
    let mut code: u32 = 0;
    while code <= 0x10FFFF {
        if let Some(c) = char::from_u32(code) {
            assert_eq!(char_is_whitespace(c), c.is_whitespace(), "U+{:04X}", code);
        }
        code += 1;
    }
}

#[test]
fn trim_agrees_with_the_standard_library() {
    let samples = [
        "",
        " ",
        "a",
        "  a b  ",
        "\t\n x \r\n",
        "\u{a0}x\u{3000}",
        "\u{2003}\u{2028}mid dle\u{205f}",
        "\u{200b}zero width stays\u{200b}",
        "no-trim",
    ];
    for sample in samples {
        assert_eq!(trim_str(sample), sample.trim(), "{:?}", sample);
    }
    assert_eq!(trim_str(" \t a b \n"), "a b");
}

#[test]
fn characters_round_trip_through_strings() {
    let text = "héllo — wörld…";
    let chars = chars_of(text);
    assert_eq!(chars.len(), text.chars().count());
    assert_eq!(string_of(&chars), text);
    assert_eq!(string_of(&Vec::new()), "");
}

#[test]
fn collapse_joins_words_with_single_spaces() {
    let collapsed = collapse_chars(&chars_of("  a \t b\n\nc "));
    assert_eq!(string_of(&collapsed), "a b c");
    assert_eq!(string_of(&collapse_chars(&chars_of(""))), "");
    assert_eq!(string_of(&collapse_chars(&chars_of(" \n "))), "");
    assert_eq!(string_of(&collapse_chars(&chars_of("one"))), "one");
}

#[test]
fn unsigned_numbers_parse_as_the_standard_library_does() {
    let samples = [
        "42",
        "+7",
        "",
        "+",
        "-1",
        "0",
        "007",
        "18446744073709551615",
        "18446744073709551616",
        "99999999999999999999999",
        "1 ",
        " 1",
        "1_000",
        "٣",
        "12a",
        "++1",
    ];
    for sample in samples {
        assert_eq!(parse_u64_str(sample), sample.parse::<u64>().ok(), "{:?}", sample);
    }
    assert_eq!(parse_u64_str("42"), Some(42));
    assert_eq!(parse_u64_str("+7"), Some(7));
    assert_eq!(parse_u64_str("18446744073709551615"), Some(u64::MAX));
    assert_eq!(parse_u64_str("18446744073709551616"), None);
}

#[test]
fn decimal_rendering_matches_display() {
    for n in [0u64, 1, 9, 10, 11, 99, 100, 1234567890, u64::MAX] {
        assert_eq!(decimal_string(n), n.to_string());
    }
}

#[test]
fn ascii_case_is_ignored_only_for_ascii_letters() {
    let pairs = [("me()", "ME()"), ("Me()", "mE()"), ("é", "É"), ("abc", "abd"), ("a", "ab"), ("", "")];
    for (a, b) in pairs {
        assert_eq!(
            chars_eq_ignore_ascii_case(&chars_of(a), &chars_of(b)),
            a.eq_ignore_ascii_case(b),
            "{:?} {:?}",
            a,
            b
        );
    }
}
