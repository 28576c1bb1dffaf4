use read_it_later::text::{
    chars_of, is_white_space_char, lines_of, push_chars, push_decimal, replace_all_chars, same_text,
    string_of, trim_chars, trim_end_matches_char,
};

fn lines(s: &str) -> Vec<String> {
    lines_of(&chars_of(s)).iter().map(|l| string_of(l)).collect()
}

#[test]
fn white_space_is_unicode_white_space() {
    for c in ['\t', '\n', '\r', ' ', '\u{85}', '\u{a0}', '\u{2003}', '\u{3000}'] {
        assert!(is_white_space_char(c));
        assert_eq!(is_white_space_char(c), c.is_whitespace());
    }
    for c in ['a', '_', '\u{200b}', '0'] {
        assert!(!is_white_space_char(c));
        assert_eq!(is_white_space_char(c), c.is_whitespace());
    }
}

#[test]
fn trimming_matches_std() {
    for s in ["  a b \n", "", "   ", "x", "\u{a0}y\u{3000}"] {
        assert_eq!(string_of(&trim_chars(&chars_of(s))), s.trim());
    }
    assert_eq!(string_of(&trim_end_matches_char(&chars_of("a//b///"), '/')), "a//b");
    assert_eq!(string_of(&trim_end_matches_char(&chars_of("///"), '/')), "");
}

#[test]
fn lines_match_std() {
    for s in ["a\r\nb\n\nc", "a\n", "", "\n", "x\ry", "a\r", "\r\n\r\n"] {
        let expected: Vec<String> = s.lines().map(|l| l.to_string()).collect();
        assert_eq!(lines(s), expected);
    }
}

#[test]
fn replacing_matches_std() {
    let cases = [("a{x}b{x}", "{x}", "YY"), ("aaaa", "aa", "b"), ("abc", "abcd", "z"), ("", "x", "y")];
    for (s, p, r) in cases {
        assert_eq!(string_of(&replace_all_chars(&chars_of(s), &chars_of(p), &chars_of(r))), s.replace(p, r));
    }
}

#[test]
fn decimals_match_std() {
    for n in [0i64, 7, 10, -1, 1234567, i64::MAX, i64::MIN] {
        let mut s = String::from("n=");
        push_decimal(&mut s, n);
        assert_eq!(s, format!("n={}", n));
    }
}

#[test]
fn texts_compare_and_append() {
    assert!(same_text("héllo", "héllo"));
    assert!(!same_text("hello", "hell"));
    assert!(!same_text("a", "b"));
    let mut s = String::from("ab");
    push_chars(&mut s, &['c', 'é']);
    assert_eq!(s, "abcé");
}
