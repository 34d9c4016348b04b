use vidreprocess::decimal::{parse_i8, u8_to_decimal};
use vidreprocess::text::{chars_of, contains, join, matches_at, replace_all, same_text, starts_with};

fn list(items: &[&str]) -> Vec<String> {
    items.iter().map(|s| s.to_string()).collect()
}

#[test]
fn join_puts_separator_between_neighbours() {
    assert_eq!(join(&list(&[]), ","), "");
    assert_eq!(join(&list(&["a"]), ","), "a");
    assert_eq!(join(&list(&["a", "b", "c"]), ", "), "a, b, c");
    assert_eq!(join(&list(&["", ""]), "_"), "_");
}

#[test]
fn chars_are_unicode_scalar_values() {
    assert_eq!(chars_of("ab"), vec!['a', 'b']);
    assert_eq!(chars_of("h\u{e9}'\u{1F600}"), vec!['h', '\u{e9}', '\'', '\u{1F600}']);
    assert_eq!(chars_of(""), Vec::<char>::new());
}

#[test]
fn matches_at_compares_in_place() {
    let text = chars_of("-ss #1 -t #1");
    let pattern = chars_of("#1");
    assert!(matches_at(&text, 4, &pattern));
    assert!(matches_at(&text, 10, &pattern));
    assert!(!matches_at(&text, 0, &pattern));
    assert!(!matches_at(&text, 11, &pattern));
    assert!(!matches_at(&text, 12, &pattern));
    assert!(!matches_at(&text, usize::MAX, &pattern));
    assert!(matches_at(&text, 12, &Vec::new()));
    assert!(!matches_at(&text, 13, &Vec::new()));
}

#[test]
fn replace_all_replaces_every_occurrence() {
    assert_eq!(replace_all("-ss #1", "#1", "10"), "-ss 10");
    assert_eq!(
        replace_all("vf:crop=in_w-2*#1:in_h-2*#1:#1:#1", "#1", "8"),
        "vf:crop=in_w-2*8:in_h-2*8:8:8"
    );
    assert_eq!(replace_all("no placeholder", "#1", "x"), "no placeholder");
    assert_eq!(replace_all("#1", "#1", ""), "");
    assert_eq!(replace_all("#1#1", "#1", "#1#"), "#1##1#");
}

#[test]
fn replace_all_resumes_behind_a_replaced_occurrence() {
    assert_eq!(replace_all("aaa", "aa", "b"), "ba");
    assert_eq!(replace_all("aaaa", "aa", "b"), "bb");
}

#[test]
fn replace_all_with_empty_pattern_changes_nothing() {
    assert_eq!(replace_all("abc", "", "x"), "abc");
}

#[test]
fn contains_and_starts_with() {
    assert!(contains("made by PROCESSED_BY_VIDREPROCESS v1", "PROCESSED_BY_VIDREPROCESS"));
    assert!(!contains("PROCESSED_BY_VIDREPROCES", "PROCESSED_BY_VIDREPROCESS"));
    assert!(contains("abc", ""));
    assert!(contains("", ""));
    assert!(!contains("", "a"));
    assert!(contains("abc", "c"));
    assert!(starts_with("vf:crop", "vf:"));
    assert!(!starts_with("-vf:", "vf:"));
    assert!(!starts_with("vf", "vf:"));
    assert!(starts_with("x", ""));
}

#[test]
fn same_text_compares_characters() {
    assert!(same_text("none", "none"));
    assert!(!same_text("none", "None"));
    assert!(!same_text("none", "non"));
    assert!(same_text("", ""));
}

#[test]
fn decimal_of_small_numbers() {
    assert_eq!(u8_to_decimal(0), "0");
    assert_eq!(u8_to_decimal(7), "7");
    assert_eq!(u8_to_decimal(28), "28");
    assert_eq!(u8_to_decimal(100), "100");
    assert_eq!(u8_to_decimal(109), "109");
    assert_eq!(u8_to_decimal(255), "255");
}

#[test]
fn decimal_agrees_with_std_for_every_value() {
    let mut n: u8 = 0;
    loop {
        assert_eq!(u8_to_decimal(n), n.to_string());
        if n == u8::MAX {
            break;
        }
        n += 1;
    }
}

#[test]
fn parse_i8_reads_signed_decimals() {
    assert_eq!(parse_i8("10"), Some(10));
    assert_eq!(parse_i8("-1"), Some(-1));
    assert_eq!(parse_i8("-10"), Some(-10));
    assert_eq!(parse_i8("+5"), Some(5));
    assert_eq!(parse_i8("0"), Some(0));
    assert_eq!(parse_i8("-0"), Some(0));
    assert_eq!(parse_i8("007"), Some(7));
    assert_eq!(parse_i8("127"), Some(127));
    assert_eq!(parse_i8("-128"), Some(-128));
}

#[test]
fn parse_i8_rejects_what_is_no_eight_bit_integer() {
    assert_eq!(parse_i8(""), None);
    assert_eq!(parse_i8("-"), None);
    assert_eq!(parse_i8("+"), None);
    assert_eq!(parse_i8("128"), None);
    assert_eq!(parse_i8("-129"), None);
    assert_eq!(parse_i8("1000"), None);
    assert_eq!(parse_i8("99999999999999999999999999"), None);
    assert_eq!(parse_i8("1.5"), None);
    assert_eq!(parse_i8(" 1"), None);
    assert_eq!(parse_i8("1 "), None);
    assert_eq!(parse_i8("ten"), None);
    assert_eq!(parse_i8("--1"), None);
    assert_eq!(parse_i8("0x10"), None);
}

#[test]
fn parse_i8_agrees_with_std_on_every_value() {
    let mut n: i8 = i8::MIN;
    loop {
        assert_eq!(parse_i8(&n.to_string()), Some(n));
        if n == i8::MAX {
            break;
        }
        n += 1;
    }
}
