use mn_rs::text::decimal;
use mn_rs::text::is_space;
use mn_rs::text::remove_all;
use mn_rs::text::same_text;
use mn_rs::text::trim;

#[test]
fn trim_cuts_whitespace_at_both_ends_only() {
    assert_eq!(trim(""), "");
    assert_eq!(trim("   "), "");
    assert_eq!(trim("a"), "a");
    assert_eq!(trim("  Hallo  Welt \n"), "Hallo  Welt");
    assert_eq!(trim("\t\r\nx y\u{a0}\u{2003}\u{3000}"), "x y");
    assert_eq!(trim("\u{feff}x"), "\u{feff}x");
    assert_eq!(trim(" \u{e4}\u{f6} "), "\u{e4}\u{f6}");
}

#[test]
fn trim_agrees_with_the_standard_library() {
    for c in 0u32..0x3100 {
        if let Some(c) = char::from_u32(c) {
            assert_eq!(is_space(c), c.is_whitespace());
            let padded = format!("{c}a{c}b{c}");
            assert_eq!(trim(&padded), padded.trim());
        }
    }
}

#[test]
fn remove_all_takes_out_every_occurrence() {
    assert_eq!(remove_all("house (noun) house", "(noun)"), "house  house");
    assert_eq!(remove_all("aaa", "aa"), "a");
    assert_eq!(remove_all("aabb", "ab"), "ab");
    assert_eq!(remove_all("abc", ""), "abc");
    assert_eq!(remove_all("", "abc"), "");
    assert_eq!(remove_all("abc", "abc"), "");
    assert_eq!(remove_all("abc", "abcd"), "abc");
    assert_eq!(remove_all("\u{e4}x\u{e4}", "\u{e4}"), "x");
}

#[test]
fn remove_all_agrees_with_the_standard_library() {
    let texts = ["", "a", "abab", "aaaa", "xabyabz", "ab ab", "\u{fc}b\u{fc}"];
    let patterns = ["", "a", "ab", "aa", "b", "\u{fc}", "abab"];
    for text in texts {
        for pattern in patterns {
            assert_eq!(remove_all(text, pattern), text.replace(pattern, ""));
        }
    }
}

#[test]
fn same_text_compares_contents() {
    assert!(same_text("v1", "v1"));
    assert!(!same_text("v1", "v2"));
    assert!(!same_text("v1", "v1 "));
    assert!(same_text("", ""));
}

#[test]
fn decimal_writes_numbers_without_leading_zeros() {
    assert_eq!(decimal(0), "0");
    assert_eq!(decimal(7), "7");
    assert_eq!(decimal(10), "10");
    assert_eq!(decimal(500), "500");
    assert_eq!(decimal(1234567890), "1234567890");
    assert_eq!(decimal(usize::MAX), usize::MAX.to_string());
}
