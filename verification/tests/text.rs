use docxy::config::RegistryApiVersion;
use docxy::encoding::{encode_bytes, encode_text};
use docxy::text::{
    chars_of, contains_char, contains_text, copy_range, find_char, find_from, hex_digit,
    matches_at, same_chars, same_text, split, starts_with, string_of, string_of_range,
    to_decimal, to_hex, trim, trim_end_matches, trim_matches,
};

fn chars(s: &str) -> Vec<char> {
    s.chars().collect()
}

fn split_text(s: &str, sep: char) -> Vec<String> {
    split(&chars(s), sep).iter().map(|piece| piece.iter().collect()).collect()
}

fn trimmed(s: &str) -> String {
    trim(&chars(s)).iter().collect()
}

#[test]
fn characters_and_strings_convert_both_ways() {
    assert_eq!(chars_of("héllo"), vec!['h', 'é', 'l', 'l', 'o']);
    assert_eq!(chars_of(""), Vec::<char>::new());
    assert_eq!(string_of(&chars("héllo")), "héllo");
    assert_eq!(string_of(&[]), "");
    assert_eq!(string_of_range(&chars("héllo"), 1, 3), "él");
    assert_eq!(string_of_range(&chars("héllo"), 2, 2), "");
    assert_eq!(copy_range(&chars("héllo"), 0, 5), chars("héllo"));
    assert_eq!(copy_range(&chars("héllo"), 4, 5), vec!['o']);
}

#[test]
fn comparisons_go_by_characters() {
    assert!(same_text("abc", "abc"));
    assert!(same_text("", ""));
    assert!(!same_text("abc", "abd"));
    assert!(!same_text("abc", "ab"));
    assert!(!same_text("ab", "abc"));
    assert!(same_chars(&chars("é"), &chars("é")));
    assert!(!same_chars(&chars("e"), &chars("é")));
    assert!(matches_at(&chars("hello"), 1, &chars("ell")));
    assert!(matches_at(&chars("hello"), 5, &chars("")));
    assert!(!matches_at(&chars("hello"), 3, &chars("lol")));
    assert!(!matches_at(&chars("hello"), 1, &chars("elx")));
    assert!(starts_with(&chars("Basic x"), &chars("Basic ")));
    assert!(starts_with(&chars("abc"), &chars("")));
    assert!(starts_with(&chars("abc"), &chars("abc")));
    assert!(!starts_with(&chars("abc"), &chars("abcd")));
    assert!(!starts_with(&chars("abc"), &chars("b")));
}

#[test]
fn searching_finds_the_first_occurrence() {
    assert_eq!(find_char(&chars("a:b:c"), ':'), Some(1));
    assert_eq!(find_char(&chars("abc"), ':'), None);
    assert_eq!(find_char(&chars(""), ':'), None);
    assert_eq!(find_from(&chars("a:b:c"), 2, ':'), Some(3));
    assert_eq!(find_from(&chars("a:b:c"), 1, ':'), Some(1));
    assert_eq!(find_from(&chars("a:b:c"), 4, ':'), None);
    assert_eq!(find_from(&chars("a:b:c"), 5, ':'), None);
    assert!(contains_char(&chars("ghcr.io"), '.'));
    assert!(!contains_char(&chars("ghcr"), '.'));
    assert!(contains_text(&chars("x Bearer y"), &chars("Bearer")));
    assert!(contains_text(&chars("Bearer"), &chars("Bearer")));
    assert!(contains_text(&chars("abc"), &chars("")));
    assert!(contains_text(&chars(""), &chars("")));
    assert!(!contains_text(&chars("Beare"), &chars("Bearer")));
    assert!(!contains_text(&chars("bearer"), &chars("Bearer")));
    assert!(!contains_text(&chars(""), &chars("a")));
}

#[test]
fn splitting_keeps_empty_pieces() {
    assert_eq!(split_text("a,b,c", ','), vec!["a", "b", "c"]);
    assert_eq!(split_text("abc", ','), vec!["abc"]);
    assert_eq!(split_text("", ','), vec![""]);
    assert_eq!(split_text(",", ','), vec!["", ""]);
    assert_eq!(split_text(",a,,b,", ','), vec!["", "a", "", "b", ""]);
    for text in ["a b  c", " x", "x ", "", "   ", "é è"] {
        let expected: Vec<String> = text.split(' ').map(String::from).collect();
        assert_eq!(split_text(text, ' '), expected);
    }
}

#[test]
fn trimming_removes_unicode_whitespace() {
    assert_eq!(trimmed("  a b \t\r\n"), "a b");
    assert_eq!(trimmed("\u{3000}\u{a0}x\u{2003}\u{85}"), "x");
    assert_eq!(trimmed("   "), "");
    assert_eq!(trimmed(""), "");
    assert_eq!(trimmed("\u{200b}x"), "\u{200b}x");
    let samples = [
        "\u{9}\u{a}\u{b}\u{c}\u{d}\u{20}\u{85}\u{a0}\u{1680}x\u{2000}\u{2001}\u{2002}\u{2003}",
        "\u{2004}\u{2005}\u{2006}\u{2007}\u{2008}\u{2009}\u{200a}y\u{2028}\u{2029}\u{202f}\u{205f}\u{3000}",
        "\u{1c}a\u{1f}",
        "\u{180e}b\u{feff}",
        " \u{8}c\u{e} ",
    ];
    for sample in samples {
        assert_eq!(trimmed(sample), sample.trim());
    }
}

#[test]
fn the_whitespace_test_agrees_with_the_standard_library() {
    for code in 0..0x3100u32 {
        if let Some(c) = char::from_u32(code) {
            let text: String = [c, 'x', c].iter().collect();
            assert_eq!(trimmed(&text), text.trim(), "code point {:x}", code);
        }
    }
}

#[test]
fn trimming_a_character_removes_all_of_it_at_both_ends() {
    let unquote = |s: &str| -> String { trim_matches(&chars(s), '"').iter().collect() };
    assert_eq!(unquote("\"abc\""), "abc");
    assert_eq!(unquote("\"\"a\"b\"\""), "a\"b");
    assert_eq!(unquote("abc"), "abc");
    assert_eq!(unquote("\"\"\""), "");
    assert_eq!(unquote(""), "");
}

#[test]
fn trailing_characters_are_removed() {
    let strip = |s: &str| -> String { trim_end_matches(&chars(s), '/').iter().collect() };
    assert_eq!(strip("https://x//"), "https://x");
    assert_eq!(strip("/a/b"), "/a/b");
    assert_eq!(strip("///"), "");
    assert_eq!(strip(""), "");
}

#[test]
fn hexadecimal_is_lower_case_with_two_digits_per_byte() {
    assert_eq!(to_hex(&[]), "");
    assert_eq!(to_hex(&[0x00, 0x0f, 0xa0, 0xff, 0x1b]), "000fa0ff1b");
    assert_eq!(hex_digit(0), '0');
    assert_eq!(hex_digit(9), '9');
    assert_eq!(hex_digit(10), 'a');
    assert_eq!(hex_digit(15), 'f');
    let all: Vec<u8> = (0..=255).collect();
    let expected: String = all.iter().map(|b| format!("{:02x}", b)).collect();
    assert_eq!(to_hex(&all), expected);
}

#[test]
fn decimal_text_is_that_of_the_standard_library() {
    for n in [0, 1, 9, 10, 11, 99, 100, 1_700_000_000, -1, -9, -10, -12345, i64::MAX, i64::MIN] {
        assert_eq!(to_decimal(n), n.to_string());
    }
}

#[test]
fn text_is_encoded_by_its_utf8_bytes() {
    assert_eq!(encode_text(""), "");
    assert_eq!(encode_text("u:p"), "dTpw");
    assert_eq!(encode_text("a"), "YQ==");
    assert_eq!(encode_text("ab"), "YWI=");
    assert_eq!(encode_text("é"), "w6k=");
    assert_eq!(encode_text("\u{fb}\u{ff}"), "w7vDvw==");
    assert_eq!(encode_text("~~~"), "fn5+");
    assert_eq!(encode_text("???"), "Pz8/");
    assert_eq!(encode_bytes(&[]), "");
    assert_eq!(encode_bytes(&[0xff, 0xfe, 0x00]), "//4A");
    assert_eq!(encode_bytes(&[0xfb]), "+w==");
}

#[test]
fn the_default_version_is_auto() {
    assert_eq!(RegistryApiVersion::default(), RegistryApiVersion::Auto);
}
