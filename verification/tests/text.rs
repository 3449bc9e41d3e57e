use repakstrap::text::{
    char_is_space, decimal_text, last_token, signed_decimal_text, str_ends_with, str_trim,
    str_without_first, str_without_suffix,
};

#[test]
fn whitespace_is_what_unicode_says() {
    for c in ['\t', '\n', '\u{b}', '\u{c}', '\r', ' ', '\u{85}', '\u{a0}', '\u{1680}'] {
        assert!(char_is_space(c));
    }
    for c in ['\u{2000}', '\u{200a}', '\u{2028}', '\u{2029}', '\u{202f}', '\u{205f}', '\u{3000}'] {
        assert!(char_is_space(c));
    }
    for c in ['a', '0', '-', '\u{8}', '\u{e}', '\u{200b}', '\u{feff}'] {
        assert!(!char_is_space(c));
    }
}

#[test]
fn whitespace_agrees_with_std() {
    let mut code: u32 = 0;
    while code < 0x3100 {
        if let Some(c) = char::from_u32(code) {
            assert_eq!(char_is_space(c), c.is_whitespace());
        }
        code += 1;
    }
}

#[test]
fn decimal_of_small_and_large() {
    assert_eq!(decimal_text(0), "0");
    assert_eq!(decimal_text(7), "7");
    assert_eq!(decimal_text(10), "10");
    assert_eq!(decimal_text(1234567890), "1234567890");
    assert_eq!(decimal_text(u64::MAX), u64::MAX.to_string());
}

#[test]
fn signed_decimal_of_both_signs() {
    assert_eq!(signed_decimal_text(0), "0");
    assert_eq!(signed_decimal_text(2), "2");
    assert_eq!(signed_decimal_text(-1), "-1");
    assert_eq!(signed_decimal_text(i32::MIN), "-2147483648");
    assert_eq!(signed_decimal_text(i32::MAX), "2147483647");
}

#[test]
fn last_token_of_an_output() {
    assert_eq!(last_token("repak 1.2.3"), Some(String::from("1.2.3")));
    assert_eq!(last_token("  repak_cli   0.4.0 \n"), Some(String::from("0.4.0")));
    assert_eq!(last_token("repak\t2.0.0\r\n"), Some(String::from("2.0.0")));
    assert_eq!(last_token("single"), Some(String::from("single")));
}

#[test]
fn no_token_in_nothing_but_whitespace() {
    assert_eq!(last_token(""), None);
    assert_eq!(last_token(" \t\n "), None);
}

#[test]
fn suffixes() {
    assert!(str_ends_with("repak-x86_64-unknown-linux-gnu.tar.xz", "linux-gnu.tar.xz"));
    assert!(!str_ends_with("repak-x86_64-pc-windows-msvc.zip", "linux-gnu.tar.xz"));
    assert!(str_ends_with("abc", ""));
    assert!(str_ends_with("abc", "abc"));
    assert!(!str_ends_with("bc", "abc"));
    assert!(!str_ends_with("linux-gnu.tar.xz.sha256", "linux-gnu.tar.xz"));
}

#[test]
fn trimming_takes_both_ends() {
    assert_eq!(str_trim("  rate limit exceeded \r\n"), "rate limit exceeded");
    assert_eq!(str_trim("inner  space"), "inner  space");
    assert_eq!(str_trim(" \t "), "");
    assert_eq!(str_trim(""), "");
}

#[test]
fn dropping_the_first_character() {
    assert_eq!(str_without_first("v1.4.0"), "1.4.0");
    assert_eq!(str_without_first("v"), "");
    assert_eq!(str_without_first(""), "");
    assert_eq!(str_without_first("\u{e9}1.0.0"), "1.0.0");
}

#[test]
fn dropping_a_suffix() {
    assert_eq!(str_without_suffix("a.b.tar.xz", ".tar.xz"), "a.b");
    assert_eq!(str_without_suffix("a.tar.xz.tar.xz", ".tar.xz"), "a.tar.xz");
    assert_eq!(str_without_suffix("a.tar.gz", ".tar.xz"), "a.tar.gz");
    assert_eq!(str_without_suffix("abc", ""), "abc");
    assert_eq!(str_without_suffix("", ".zip"), "");
}
