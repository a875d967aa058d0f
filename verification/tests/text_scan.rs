use cfctl::scan::{
    after_spaces, after_word, line_spans, parse_i32_in, parse_u16, parse_u64, space, tail_file,
    trim_span,
};
use cfctl::text::{
    chars_of, contains_run, decimal_padded2_string, decimal_string, join2, join3,
    signed_decimal_string, str_contains, string_of, string_of_range,
};

fn chars(s: &str) -> Vec<char> {
    s.chars().collect()
}

#[test]
fn decimal_rendering_matches_the_standard_one() {
    for n in [0u64, 1, 9, 10, 11, 99, 100, 6520, 65535, 1_000_000, u64::MAX] {
        assert_eq!(decimal_string(n), n.to_string());
    }
    for n in [0i32, 1, -1, 42, -42, i32::MAX, i32::MIN] {
        assert_eq!(signed_decimal_string(n), n.to_string());
    }
    assert_eq!(decimal_padded2_string(0), "00");
    assert_eq!(decimal_padded2_string(7), "07");
    assert_eq!(decimal_padded2_string(10), "10");
    assert_eq!(decimal_padded2_string(123), "123");
}

#[test]
fn conversions_between_strings_and_characters() {
    let v = chars_of("héllo");
    assert_eq!(v, chars("héllo"));
    assert_eq!(string_of(&v), "héllo");
    assert_eq!(string_of_range(&v, 1, 4), "éll");
    assert_eq!(join2("ab", "cd"), "abcd");
    assert_eq!(join3("a", "", "c"), "ac");
}

#[test]
fn substring_search() {
    assert!(str_contains("boot VIRTUAL_DEVICE_BOOT_COMPLETED ok", "VIRTUAL_DEVICE_BOOT_COMPLETED"));
    assert!(!str_contains("VIRTUAL_DEVICE_BOOT_COMPLETE", "VIRTUAL_DEVICE_BOOT_COMPLETED"));
    assert!(str_contains("abc", ""));
    assert!(str_contains("", ""));
    assert!(!str_contains("", "a"));
    assert!(contains_run(&chars("aab"), &chars("ab")));
    assert!(!contains_run(&chars("aab"), &chars("ba")));
}

#[test]
fn white_space_and_words() {
    assert!(space(' '));
    assert!(space('\t'));
    assert!(space('\n'));
    assert!(space('\u{a0}'));
    assert!(space('\u{3000}'));
    assert!(!space('a'));
    assert!(!space('\u{200b}'));
    for c in ['\u{9}', '\u{d}', '\u{85}', '\u{1680}', '\u{2000}', '\u{200a}', '\u{2028}', 'x', '0'] {
        assert_eq!(space(c), c.is_whitespace());
    }
    let v = chars("  one\ttwo ");
    let a = after_spaces(&v, 0);
    let b = after_word(&v, a);
    assert_eq!((a, b), (2, 5));
    let c = after_spaces(&v, b);
    let d = after_word(&v, c);
    assert_eq!((c, d), (6, 9));
    assert_eq!(trim_span(&v), (2, 9));
    assert_eq!(trim_span(&chars("   ")), (3, 3));
    assert_eq!(trim_span(&chars("")), (0, 0));
}

fn lines_of(text: &str) -> Vec<String> {
    let v = chars(text);
    line_spans(&v, 0).iter().map(|s| v[s.start..s.end].iter().collect()).collect()
}

#[test]
fn lines_are_split_as_the_standard_library_does() {
    for text in ["", "a", "a\n", "a\nb", "a\r\nb\r\n", "\n", "\n\n", "a\rb\n", "a\r", "x\n\r\ny"] {
        let expected: Vec<String> = text.lines().map(|l| l.to_string()).collect();
        assert_eq!(lines_of(text), expected, "lines of {:?}", text);
    }
}

#[test]
fn tail_keeps_the_last_lines() {
    assert_eq!(tail_file("first line\nlaunch failed marker\n", 20, false), "first line\nlaunch failed marker");
    assert_eq!(tail_file("a\nb\nc\nd", 2, false), "c\nd");
    assert_eq!(tail_file("a\nb\nc\nd\n", 1, false), "d");
    assert_eq!(tail_file("a\nb", 0, false), "");
    assert_eq!(tail_file("", 5, false), "");
    // A clipped text starts in the middle of a line, which is dropped.
    assert_eq!(tail_file("rtial\nwhole\nlast", 5, true), "whole\nlast");
    assert_eq!(tail_file("no line feed at all", 5, true), "");
}

#[test]
fn numbers_are_parsed_as_the_standard_library_does() {
    for text in ["0", "7", "007", "+5", "-5", "", "+", "-", " 5", "5 ", "18446744073709551615", "18446744073709551616", "1a", "٣"] {
        let expected = text.parse::<u64>().ok();
        assert_eq!(parse_u64(&chars(text)), expected, "u64 of {:?}", text);
    }
    for text in ["65535", "65536", "6520", "+1", "-0"] {
        let expected = text.parse::<u16>().ok();
        assert_eq!(parse_u16(&chars(text)), expected, "u16 of {:?}", text);
    }
    for text in ["0", "-0", "+0", "42", "-42", "2147483647", "2147483648", "-2147483648", "-2147483649", "", "-", "+", "1 2", "0x10"] {
        let v = chars(text);
        let expected = text.parse::<i32>().ok();
        assert_eq!(parse_i32_in(&v, 0, v.len()), expected, "i32 of {:?}", text);
    }
    let v = chars("pid 123 end");
    assert_eq!(parse_i32_in(&v, 4, 7), Some(123));
}
