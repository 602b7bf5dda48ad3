use warv::text::{
    chars_of, decode, find_in, is_whitespace, push_chars, push_decimal, split_at_each,
    split_words, str_eq, string_of,
};

fn chars(s: &str) -> Vec<char> {
    s.chars().collect()
}

fn strings(pieces: Vec<&[char]>) -> Vec<String> {
    pieces.into_iter().map(|p| p.iter().collect()).collect()
}

#[test]
fn decode_accepts_utf8_only() {
    assert_eq!(decode(b"h\xc3\xa9"), Some("h\u{e9}"));
    assert_eq!(decode(b""), Some(""));
    assert_eq!(decode(b"\xff\xfe"), None);
    assert_eq!(decode(b"\xc3"), None);
}

#[test]
fn chars_and_strings_convert_both_ways() {
    assert_eq!(chars_of("a\u{e9}\u{1F600}z"), vec!['a', '\u{e9}', '\u{1F600}', 'z']);
    assert_eq!(chars_of(""), Vec::<char>::new());
    assert_eq!(string_of(&['a', '\u{e9}', 'z']), "a\u{e9}z");
    assert_eq!(string_of(&[]), "");
}

#[test]
fn find_gives_the_first_occurrence() {
    assert_eq!(find_in(&chars("a: b: c"), &chars(": ")), Some(1));
    assert_eq!(find_in(&chars("abc"), &chars("c")), Some(2));
    assert_eq!(find_in(&chars("abc"), &chars("abc")), Some(0));
    assert_eq!(find_in(&chars("abc"), &chars("abcd")), None);
    assert_eq!(find_in(&chars("abc"), &chars("x")), None);
    assert_eq!(find_in(&chars(""), &chars("x")), None);
    assert_eq!(find_in(&chars("aaab"), &chars("ab")), Some(2));
    assert_eq!(find_in(&chars("abc"), &chars("")), Some(0));
    assert_eq!(find_in(&chars(""), &chars("")), Some(0));
}

#[test]
fn split_keeps_empty_pieces() {
    let s = chars("a\r\n\r\nb\r\n");
    assert_eq!(strings(split_at_each(&s, &chars("\r\n"))), vec!["a", "", "b", ""]);
    let s = chars("abc");
    assert_eq!(strings(split_at_each(&s, &chars("\r\n"))), vec!["abc"]);
    let s = chars("");
    assert_eq!(strings(split_at_each(&s, &chars("&"))), vec![""]);
    let s = chars("&&");
    assert_eq!(strings(split_at_each(&s, &chars("&"))), vec!["", "", ""]);
    let s = chars("aaa");
    assert_eq!(strings(split_at_each(&s, &chars("aa"))), vec!["", "a"]);
}

#[test]
fn split_agrees_with_std() {
    for text in ["", "a", "a&b", "&a&&b&", "x=1&y=2&z", "&&&&"] {
        let s = chars(text);
        let expected: Vec<String> = text.split('&').map(|p| p.to_string()).collect();
        assert_eq!(strings(split_at_each(&s, &['&'])), expected);
    }
}

#[test]
fn words_are_runs_between_white_space() {
    let s = chars("  GET   /x\tHTTP/1.1 ");
    assert_eq!(strings(split_words(&s)), vec!["GET", "/x", "HTTP/1.1"]);
    let s = chars("");
    assert_eq!(strings(split_words(&s)), Vec::<String>::new());
    let s = chars(" \t\n");
    assert_eq!(strings(split_words(&s)), Vec::<String>::new());
    let s = chars("a\u{a0}b\u{3000}c");
    assert_eq!(strings(split_words(&s)), vec!["a", "b", "c"]);
    let s = chars("one");
    assert_eq!(strings(split_words(&s)), vec!["one"]);
}

#[test]
fn words_agree_with_std() {
    for text in ["a b", "  a  b  ", "GET / HTTP/1.1", "\u{2003}x\u{2028}y", "x\u{200b}y"] {
        let s = chars(text);
        let expected: Vec<String> = text.split_whitespace().map(|p| p.to_string()).collect();
        assert_eq!(strings(split_words(&s)), expected);
    }
}

#[test]
fn white_space_is_what_std_says() {
    for code in 0..=0x10FFFFu32 {
        if let Some(c) = char::from_u32(code) {
            assert_eq!(is_whitespace(c), c.is_whitespace(), "U+{:04X}", code);
        }
    }
}

#[test]
fn decimal_has_no_leading_zeros() {
    for (n, expected) in [
        (0usize, "0"),
        (7, "7"),
        (10, "10"),
        (204, "204"),
        (1000, "1000"),
        (30720, "30720"),
        (usize::MAX, &usize::MAX.to_string()),
    ] {
        let mut out = String::from(">");
        push_decimal(&mut out, n);
        assert_eq!(out, format!(">{}", expected));
    }
}

#[test]
fn push_chars_appends() {
    let mut out = String::from("ab");
    push_chars(&mut out, &['c', 'd']);
    push_chars(&mut out, &[]);
    assert_eq!(out, "abcd");
}

#[test]
fn strings_are_equal_by_their_characters() {
    assert!(str_eq("", ""));
    assert!(str_eq("Origin", "Origin"));
    assert!(str_eq("h\u{e9}", "h\u{e9}"));
    assert!(!str_eq("Origin", "origin"));
    assert!(!str_eq("a", "ab"));
    assert!(!str_eq("ab", "a"));
    assert!(!str_eq("h\u{e9}", "h\u{e8}"));
}
