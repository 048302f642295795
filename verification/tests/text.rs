use adbr::number::{push_decimal, push_hex, read_digits, read_hex_group, read_unsigned};
use adbr::scan::{
    find_char, find_space, is_whitespace, push_joined, split_at_char, split_at_either,
    strings_of, trimmed,
};
use adbr::text::{chars_of, code_of, is_text, push_chars, push_text, same_text, string_of};

fn chars(s: &str) -> Vec<char> {
    s.chars().collect()
}

#[test]
fn characters_and_strings() {
    assert_eq!(chars_of("añ→"), vec!['a', 'ñ', '→']);
    assert_eq!(string_of(&['a', 'ñ', '→']), "añ→");
    assert_eq!(string_of(&[]), "");
    assert_eq!(code_of('A'), 65);
    assert!(same_text(&chars("ab"), &chars("ab")));
    assert!(!same_text(&chars("ab"), &chars("abc")));
    assert!(!same_text(&chars("ab"), &chars("ac")));
    assert!(is_text(&chars("tcp:"), "tcp:"));
    assert!(!is_text(&chars("tcp"), "tcp:"));
    let mut out = chars("a");
    push_text(&mut out, "bc");
    push_chars(&mut out, &['d']);
    assert_eq!(out, chars("abcd"));
}

#[test]
fn searching_and_splitting() {
    assert_eq!(find_char(&chars("a:b:c"), ':'), 1);
    assert_eq!(find_char(&chars("abc"), ':'), 3);
    assert_eq!(find_char(&chars(""), ':'), 0);
    assert_eq!(find_space(&chars("ab\tc d")), 2);
    assert_eq!(find_space(&chars("abc")), 3);
    assert_eq!(
        split_at_char(&chars("a::b:"), ':'),
        vec![chars("a"), chars(""), chars("b"), chars("")]
    );
    assert_eq!(split_at_char(&chars(""), ':'), vec![chars("")]);
    assert_eq!(
        split_at_either(&chars("a b,c"), ' ', ','),
        vec![chars("a"), chars("b"), chars("c")]
    );
    assert_eq!(
        strings_of(&vec![chars("x"), chars("")]),
        vec!["x".to_string(), "".to_string()]
    );
    let mut out = Vec::new();
    push_joined(&mut out, &["a".to_string(), "".to_string(), "b".to_string()], '/');
    assert_eq!(out, chars("a//b"));
    let mut out = Vec::new();
    push_joined(&mut out, &[], '/');
    assert_eq!(out, chars(""));
}

#[test]
fn white_space_is_what_trimming_removes() {
    for c in ['\t', '\n', '\u{b}', '\u{c}', '\r', ' ', '\u{85}', '\u{a0}', '\u{1680}',
        '\u{2000}', '\u{200a}', '\u{2028}', '\u{2029}', '\u{202f}', '\u{205f}', '\u{3000}']
    {
        assert!(is_whitespace(c), "{:?}", c);
        assert!(c.is_whitespace());
    }
    for c in ['a', '-', '\u{200b}', '\u{feff}', '\u{0}', '\u{1c}', '\u{180e}'] {
        assert_eq!(is_whitespace(c), c.is_whitespace(), "{:?}", c);
    }
    for n in 0u32..0x3100 {
        if let Some(c) = char::from_u32(n) {
            assert_eq!(is_whitespace(c), c.is_whitespace(), "{:?}", c);
        }
    }
    assert_eq!(trimmed(&chars(" \t a b \r\n")), chars("a b"));
    assert_eq!(trimmed(&chars(" \t ")), chars(""));
    assert_eq!(trimmed(&chars("")), chars(""));
    assert_eq!(trimmed(&chars("x")), chars("x"));
}

#[test]
fn numerals() {
    let mut out = Vec::new();
    push_decimal(&mut out, 0);
    out.push(' ');
    push_decimal(&mut out, 4294967295);
    out.push(' ');
    push_hex(&mut out, 0);
    out.push(' ');
    push_hex(&mut out, 0xabcd);
    out.push(' ');
    push_hex(&mut out, 0x10);
    assert_eq!(out, chars("0 4294967295 0 abcd 10"));
    assert_eq!(read_digits(&chars("0012"), 65535), Some(12));
    assert_eq!(read_digits(&chars("65535"), 65535), Some(65535));
    assert_eq!(read_digits(&chars("65536"), 65535), None);
    assert_eq!(read_digits(&chars("99999999999999999999999"), 65535), None);
    assert_eq!(read_digits(&chars("+1"), 65535), None);
    assert_eq!(read_digits(&chars(""), 65535), None);
    assert_eq!(read_unsigned(&chars("+1"), 65535), Some(1));
    assert_eq!(read_unsigned(&chars("+"), 65535), None);
    assert_eq!(read_unsigned(&chars("-1"), 65535), None);
    assert_eq!(read_unsigned(&chars("4294967295"), u32::MAX), Some(u32::MAX));
    assert_eq!(read_unsigned(&chars("4294967296"), u32::MAX), None);
    for s in ["0", "7", "+7", "007", "65535", "65536", "", "+", "-0", "1 ", "١"] {
        assert_eq!(
            read_unsigned(&chars(s), 65535),
            s.parse::<u16>().ok().map(u32::from),
            "{:?}",
            s
        );
        assert_eq!(
            read_unsigned(&chars(s), u32::MAX),
            s.parse::<u32>().ok(),
            "{:?}",
            s
        );
    }
    assert_eq!(read_hex_group(&chars("ffff")), Some(0xffff));
    assert_eq!(read_hex_group(&chars("AbC")), Some(0xabc));
    assert_eq!(read_hex_group(&chars("0")), Some(0));
    assert_eq!(read_hex_group(&chars("")), None);
    assert_eq!(read_hex_group(&chars("12345")), None);
    assert_eq!(read_hex_group(&chars("g")), None);
}
