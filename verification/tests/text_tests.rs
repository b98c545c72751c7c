use feed_curator::text::{
    chars_of, find_from, has_substring, push_decimal, push_hex_byte, starts_at, string_of,
    string_of_range, suffix_after_last,
};

fn chars(s: &str) -> Vec<char> {
    s.chars().collect()
}

#[test]
fn chars_and_strings_round_trip() {
    assert_eq!(chars_of("héllo"), vec!['h', 'é', 'l', 'l', 'o']);
    assert_eq!(string_of(&chars("héllo")), "héllo");
    assert_eq!(string_of_range(&chars("héllo"), 1, 3), "él");
    assert_eq!(string_of_range(&chars("héllo"), 2, 2), "");
}

#[test]
fn find_gives_the_first_match_at_or_after_the_start() {
    let hay = chars("abcabc");
    assert_eq!(find_from(&hay, &chars("bc"), 0), Some(1));
    assert_eq!(find_from(&hay, &chars("bc"), 1), Some(1));
    assert_eq!(find_from(&hay, &chars("bc"), 2), Some(4));
    assert_eq!(find_from(&hay, &chars("bc"), 5), None);
    assert_eq!(find_from(&hay, &chars("x"), 0), None);
    assert_eq!(find_from(&hay, &chars("abcabcd"), 0), None);
    assert_eq!(find_from(&hay, &chars(""), 6), Some(6));
    assert_eq!(find_from(&hay, &chars(""), 7), None);
}

#[test]
fn starts_at_checks_one_position() {
    let hay = chars("abcabc");
    assert!(starts_at(&hay, &chars("abc"), 3));
    assert!(!starts_at(&hay, &chars("abc"), 4));
    assert!(!starts_at(&hay, &chars("abc"), 2));
}

#[test]
fn substring_test_finds_any_occurrence() {
    assert!(has_substring(&chars("www.youtube.com"), &chars("youtube.com")));
    assert!(!has_substring(&chars("www.youtube.co"), &chars("youtube.com")));
}

#[test]
fn suffix_after_the_last_separator() {
    assert_eq!(suffix_after_last(&chars("a=b=c"), '='), "c");
    assert_eq!(suffix_after_last(&chars("a=b="), '='), "");
    assert_eq!(suffix_after_last(&chars("abc"), '='), "abc");
    assert_eq!(suffix_after_last(&chars(""), '='), "");
}

#[test]
fn decimal_numerals_have_no_leading_zeros() {
    let mut s = String::from("n=");
    push_decimal(&mut s, 0);
    assert_eq!(s, "n=0");
    let mut s = String::new();
    push_decimal(&mut s, 1203);
    assert_eq!(s, "1203");
    let mut s = String::new();
    push_decimal(&mut s, u64::MAX);
    assert_eq!(s, "18446744073709551615");
}

#[test]
fn bytes_are_written_as_two_lower_case_hex_digits() {
    let mut s = String::new();
    push_hex_byte(&mut s, 0);
    push_hex_byte(&mut s, 10);
    push_hex_byte(&mut s, 171);
    push_hex_byte(&mut s, 255);
    assert_eq!(s, "000aabff");
}
