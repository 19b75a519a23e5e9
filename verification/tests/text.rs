use download_bot::decimal::{append_decimal, decimal_text};
use download_bot::text::{same_text, starts_with, strip_leading};

#[test]
fn decimal_of_zero_is_one_digit() {
    assert_eq!(decimal_text(0), "0");
}

#[test]
fn decimal_of_single_digits() {
    assert_eq!(decimal_text(7), "7");
    assert_eq!(decimal_text(9), "9");
}

#[test]
fn decimal_of_round_numbers_keeps_zeros() {
    assert_eq!(decimal_text(10), "10");
    assert_eq!(decimal_text(100), "100");
    assert_eq!(decimal_text(1080), "1080");
}

#[test]
fn decimal_of_largest_number() {
    assert_eq!(decimal_text(u64::MAX), "18446744073709551615");
}

#[test]
fn decimal_matches_standard_formatting() {
    let samples: Vec<u64> = vec![0, 1, 9, 10, 11, 99, 100, 101, 360, 720, 1080, 65535, 1234567890];
    for n in samples {
        assert_eq!(decimal_text(n), format!("{}", n));
    }
}

#[test]
fn decimal_numerals_differ_for_different_numbers() {
    let mut seen: Vec<String> = Vec::new();
    for n in 0..300u64 {
        let numeral = decimal_text(n);
        assert!(!seen.contains(&numeral));
        seen.push(numeral);
    }
}

#[test]
fn append_decimal_keeps_what_was_there() {
    let mut out = String::from("job-");
    append_decimal(&mut out, 42);
    assert_eq!(out, "job-42");
    append_decimal(&mut out, 0);
    assert_eq!(out, "job-420");
}

#[test]
fn starts_with_finds_a_prefix() {
    assert!(starts_with("download x", "download "));
    assert!(starts_with("download ", "download "));
    assert!(starts_with("anything", ""));
    assert!(starts_with("", ""));
}

#[test]
fn starts_with_rejects_what_is_no_prefix() {
    assert!(!starts_with("download", "download "));
    assert!(!starts_with("Download x", "download "));
    assert!(!starts_with(" download x", "download "));
    assert!(!starts_with("", "a"));
    assert!(!starts_with("audio", "audio "));
}

#[test]
fn starts_with_counts_characters_not_bytes() {
    assert!(starts_with("привет мир", "привет "));
    assert!(!starts_with("привет", "приветы"));
    assert!(starts_with("download ссылка", "download "));
}

#[test]
fn same_text_compares_whole_texts() {
    assert!(same_text("quality_720p", "quality_720p"));
    assert!(same_text("", ""));
    assert!(!same_text("quality_720p", "quality_720"));
    assert!(!same_text("quality_720", "quality_720p"));
    assert!(!same_text("best", "Best"));
    assert!(!same_text("", "x"));
}

#[test]
fn strip_leading_removes_one_prefix() {
    assert_eq!(strip_leading("download https://example/video", "download "), "https://example/video");
}

#[test]
fn strip_leading_removes_repeated_prefixes() {
    assert_eq!(strip_leading("download download download x", "download "), "x");
    assert_eq!(strip_leading("ababab", "ab"), "");
    assert_eq!(strip_leading("ababa", "ab"), "a");
}

#[test]
fn strip_leading_leaves_other_texts_alone() {
    assert_eq!(strip_leading("audio x", "download "), "audio x");
    assert_eq!(strip_leading("", "download "), "");
    assert_eq!(strip_leading("x download ", "download "), "x download ");
}

#[test]
fn strip_leading_with_empty_prefix_removes_nothing() {
    assert_eq!(strip_leading("abc", ""), "abc");
    assert_eq!(strip_leading("", ""), "");
}

#[test]
fn strip_leading_keeps_characters_outside_ascii() {
    assert_eq!(strip_leading("audio песня №1", "audio "), "песня №1");
    assert_eq!(strip_leading("ёёёж", "ё"), "ж");
}

#[test]
fn strip_leading_matches_standard_trimming() {
    let texts = ["download a", "download download ", "downloadx", "audio audio b", "", "d"];
    let prefixes = ["download ", "audio ", "d"];
    for text in texts {
        for prefix in prefixes {
            assert_eq!(strip_leading(text, prefix), text.trim_start_matches(prefix));
            assert_eq!(starts_with(text, prefix), text.starts_with(prefix));
        }
    }
}
