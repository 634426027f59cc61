//! Numbers, trimming, encoding and the calendar.
use mediagenerator::clock::{iso8601, Timestamp};
use mediagenerator::domain::i18n::nb;
use mediagenerator::text::chars::{
    chars_of, concat_text, contains_text, join_text, leading_text, starts_with, string_of, text_eq,
};
use mediagenerator::text::number::{decimal_text, parse_i32, parse_u32, parse_u64};
use mediagenerator::text::percent::percent_encode;
use mediagenerator::text::truncate::truncate_bytes;
use mediagenerator::text::unicode::{is_control, is_white_space, strip_leading, trim_text};

fn at(seconds: i128) -> Timestamp {
    Timestamp::from_unix_nanos(seconds * 1_000_000_000).expect("near")
}

#[test]
fn white_space_is_what_unicode_says() {
    for code in 0..=0x10_ffffu32 {
        if let Some(c) = char::from_u32(code) {
            assert_eq!(is_white_space(c), c.is_whitespace(), "{code:x}");
            assert_eq!(is_control(c), c.is_control(), "{code:x}");
        }
    }
}

#[test]
fn trimming_matches_the_standard_library() {
    for text in ["", " ", "a", "  a b  ", "\u{2003}å\u{a0}", "\t\n"] {
        assert_eq!(trim_text(text), text.trim());
    }
    assert_eq!(strip_leading("//a/", '/'), "a/");
    assert_eq!(strip_leading("æøå", 'æ'), "øå");
}

#[test]
fn numbers_read_as_the_standard_library_reads_them() {
    for text in [
        "", "+", "-", "0", "007", "+5", "-5", "18446744073709551615", "18446744073709551616",
        "4294967295", "4294967296", "2147483647", "2147483648", "-2147483648", "-2147483649", "1 ",
        "١", "++1", "+-1", "-0",
    ] {
        assert_eq!(parse_u64(text), text.parse().ok(), "{text:?}");
        assert_eq!(parse_u32(text), text.parse().ok(), "{text:?}");
        assert_eq!(parse_i32(text), text.parse().ok(), "{text:?}");
    }
    for number in [0, 9, 10, 4096, u64::MAX] {
        assert_eq!(decimal_text(number), number.to_string());
        assert_eq!(parse_u64(&decimal_text(number)), Some(number));
    }
}

#[test]
fn texts_are_compared_and_searched() {
    assert!(text_eq("å", "å"));
    assert!(!text_eq("å", "a"));
    assert!(contains_text("innholdsfilter", "filter"));
    assert!(contains_text("x", ""));
    assert!(!contains_text("", "x"));
    assert!(starts_with("/api/x", "/api/"));
    assert!(!starts_with("/ap", "/api/"));
    assert_eq!(leading_text("æøå", 2), "æø");
    assert_eq!(leading_text("æøå", 9), "æøå");
    assert_eq!(concat_text("a", "b"), "ab");
    assert_eq!(string_of(&chars_of("æøå")), "æøå");
    let parts = vec!["a".to_owned(), String::new(), "c".to_owned()];
    assert_eq!(join_text(&parts, ", "), "a, , c");
}

#[test]
fn encoding_keeps_only_unreserved_characters() {
    assert_eq!(percent_encode("a b&c=d/é"), "a%20b%26c%3Dd%2F%C3%A9");
    assert_eq!(percent_encode("AZaz09-_.~"), "AZaz09-_.~");
}

#[test]
fn truncation_never_splits_a_character() {
    assert_eq!(truncate_bytes("æøå", 6), "æøå");
    assert_eq!(truncate_bytes("æøå", 5), "æø");
    assert_eq!(truncate_bytes("æøå", 1), "");
    assert_eq!(truncate_bytes("a😀", 4), "a");
    assert_eq!(truncate_bytes("", 0), "");
}

#[test]
fn dates_follow_the_gregorian_calendar() {
    assert_eq!(iso8601(&at(0)), "1970-01-01T00:00:00Z");
    assert_eq!(iso8601(&at(-1)), "1969-12-31T23:59:59Z");
    assert_eq!(iso8601(&at(951_782_400)), "2000-02-29T00:00:00Z");
    assert_eq!(iso8601(&at(4_107_542_400)), "2100-03-01T00:00:00Z");
    assert_eq!(iso8601(&at(-62_135_596_801)), "0000-12-31T23:59:59Z");
    assert_eq!(iso8601(&at(-62_167_219_201)), "-001-12-31T23:59:59Z");
    let half = Timestamp::from_unix_nanos(-500_000_000).expect("near");
    assert_eq!(iso8601(&half), "1969-12-31T23:59:59Z");
}

#[test]
fn instants_know_where_the_calendar_ends() {
    let last = at(253_402_300_799);
    assert!(last.is_on_calendar());
    assert_eq!(iso8601(&last), "9999-12-31T23:59:59Z");
    assert!(last.plus_seconds(1).is_none());
    assert_eq!(last.plus_seconds(-1), Some(at(253_402_300_798)));
    assert!(!at(253_402_300_800).is_on_calendar());
    assert!(Timestamp::from_unix_nanos(i128::MAX).is_none());
    assert_eq!(at(5).nanos_since(&at(7)), -2_000_000_000);
}

#[test]
fn the_length_limit_is_named_in_the_message() {
    assert!(nb::err_prompt_too_long(4000).contains("4000"));
}
