use netpwn::text::{decimal_string, find_char, strip_newlines, trim_str};

#[test]
fn decimal_of_small_numbers() {
    assert_eq!(decimal_string(0), "0");
    assert_eq!(decimal_string(9), "9");
    assert_eq!(decimal_string(10), "10");
}

#[test]
fn decimal_of_larger_numbers() {
    assert_eq!(decimal_string(1337), "1337");
    assert_eq!(decimal_string(100000), "100000");
    assert_eq!(decimal_string(u64::MAX), "18446744073709551615");
}

#[test]
fn strips_every_newline() {
    assert_eq!(strip_newlines("a\nb\nc"), "abc");
    assert_eq!(strip_newlines("\n\n"), "");
    assert_eq!(strip_newlines("plain"), "plain");
}

#[test]
fn trims_surrounding_whitespace_only() {
    assert_eq!(trim_str("  a b \t"), "a b");
    assert_eq!(trim_str("x"), "x");
    assert_eq!(trim_str("   "), "");
}

#[test]
fn finds_first_occurrence() {
    assert_eq!(find_char("abcb", 'b'), Some(1));
    assert_eq!(find_char("abc", 'x'), None);
    assert_eq!(find_char("", 'x'), None);
}
