use minato::text::{
    contains_char, ends_with, find_char, i64_to_decimal, join, pad_right, parse_i32,
    remove_char, replace_char, starts_with, str_eq, strip_prefix, strip_suffix, take_after,
    take_before, u64_to_decimal,
};

#[test]
fn find_char_gives_the_first_position() {
    assert_eq!(find_char("a:b:c", ':'), 1);
    assert_eq!(find_char("abc", ':'), 3);
    assert_eq!(find_char("", ':'), 0);
    assert_eq!(find_char("äö:ü", ':'), 2);
}

#[test]
fn contains_char_cases() {
    assert!(contains_char("a/b", '/'));
    assert!(!contains_char("ab", '/'));
    assert!(!contains_char("", '/'));
}

#[test]
fn equality_and_affixes() {
    assert!(str_eq("abc", "abc"));
    assert!(!str_eq("abc", "abd"));
    assert!(!str_eq("abc", "ab"));
    assert!(starts_with("sha256:abc", "sha256:"));
    assert!(!starts_with("sha25", "sha256:"));
    assert!(starts_with("abc", ""));
    assert!(ends_with("a.json", ".json"));
    assert!(!ends_with("a.jso", ".json"));
    assert!(!ends_with("json", ".json"));
}

#[test]
fn strip_prefix_and_suffix() {
    assert_eq!(strip_prefix("sha256:abc", "sha256:"), "abc");
    assert_eq!(strip_prefix("abc", "sha256:"), "abc");
    assert_eq!(strip_prefix("abcsha256:", "sha256:"), "abcsha256:");
    assert_eq!(strip_suffix("a.json", ".json"), Some(String::from("a")));
    assert_eq!(strip_suffix("a.txt", ".json"), None);
}

#[test]
fn before_and_after() {
    assert_eq!(take_before("K=V=W", '='), "K");
    assert_eq!(take_after("K=V=W", '='), "V=W");
    assert_eq!(take_before("KV", '='), "KV");
    assert_eq!(take_after("KV", '='), "");
    assert_eq!(take_after("K=", '='), "");
}

#[test]
fn replace_and_remove() {
    assert_eq!(replace_char("library/alpine:latest", '/', '_'), "library_alpine:latest");
    assert_eq!(replace_char("a_b_c", '_', '/'), "a/b/c");
    assert_eq!(remove_char("12\n3\n", '\n'), "123");
}

#[test]
fn join_cases() {
    assert_eq!(join(&vec![], ":"), "");
    assert_eq!(join(&vec![String::from("a")], ":"), "a");
    assert_eq!(join(&vec![String::from("a"), String::from("b"), String::from("c")], ":"), "a:b:c");
    assert_eq!(join(&vec![String::from(""), String::from("")], ","), ",");
}

#[test]
fn decimal_numbers() {
    assert_eq!(u64_to_decimal(0), "0");
    assert_eq!(u64_to_decimal(7), "7");
    assert_eq!(u64_to_decimal(10), "10");
    assert_eq!(u64_to_decimal(1000), "1000");
    assert_eq!(u64_to_decimal(u64::MAX), "18446744073709551615");
    assert_eq!(i64_to_decimal(-1), "-1");
    assert_eq!(i64_to_decimal(0), "0");
    assert_eq!(i64_to_decimal(i64::MIN), "-9223372036854775808");
    assert_eq!(i64_to_decimal(i64::MAX), "9223372036854775807");
}

#[test]
fn parse_i32_agrees_with_std() {
    for s in [
        "0", "1", "-1", "+1", "2147483647", "2147483648", "-2147483648", "-2147483649", "", "+",
        "-", "12a", " 1", "1 ", "0000000000000000000001", "99999999999999999999999", "--1", "+-1",
        "١٢", "1234",
    ] {
        assert_eq!(parse_i32(s), s.parse::<i32>().ok(), "{:?}", s);
    }
}

#[test]
fn pad_right_fills_with_spaces() {
    assert_eq!(pad_right("id", 5), "id   ");
    assert_eq!(pad_right("toolong", 3), "toolong");
    assert_eq!(pad_right("", 2), "  ");
    assert_eq!(pad_right("abc", 3), "abc");
    assert_eq!(pad_right("pid", 10), format!("{:10}", "pid"));
}
