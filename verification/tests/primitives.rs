use nom::bytes::complete::{tag, take_until};
use nom::character::complete::{line_ending, multispace0, not_line_ending, space0, space1};
use nom::error::Error;
use union_policy_parser::parser::first_line;
use union_policy_parser::text::{
    find, has_at, in_class, parse_u32, read_line, read_line_ending, read_line_text, rest_of,
    same_text, skip_run, skip_run_back, string_of, to_chars, trim_bounds, trimmed_string, white,
    CharClass,
};

fn all_texts(alphabet: &[char], up_to: usize) -> Vec<String> {
    let mut all = vec![String::new()];
    let mut last = vec![String::new()];
    for _ in 0..up_to {
        let mut next = Vec::new();
        for t in &last {
            for c in alphabet {
                let mut longer = t.clone();
                longer.push(*c);
                next.push(longer);
            }
        }
        all.extend(next.iter().cloned());
        last = next;
    }
    all
}

#[test]
fn whitespace_is_what_std_calls_whitespace() {
    let mut c = '\0';
    loop {
        assert_eq!(white(c), c.is_whitespace(), "{:?}", c);
        assert_eq!(in_class(CharClass::Whitespace, c), c.is_whitespace());
        assert_eq!(in_class(CharClass::UrlText, c), !(c.is_whitespace() || c == ')'));
        assert_eq!(in_class(CharClass::Numeric, c), c.is_numeric());
        if c == char::MAX {
            break;
        }
        c = char::from_u32(c as u32 + 1).unwrap_or('\u{e000}');
    }
}

#[test]
fn char_classes() {
    for c in [' ', '\t', '\r', '\n'] {
        assert!(in_class(CharClass::Blank, c));
    }
    for c in ['a', '\u{b}', '\u{c}', '\u{a0}', '-'] {
        assert!(!in_class(CharClass::Blank, c));
    }
    assert!(in_class(CharClass::Inline, ' ') && in_class(CharClass::Inline, '\t'));
    assert!(!in_class(CharClass::Inline, '\n') && !in_class(CharClass::Inline, '\r'));
    assert!(in_class(CharClass::Hash, '#') && !in_class(CharClass::Hash, '*'));
    assert!(in_class(CharClass::LineText, 'x') && !in_class(CharClass::LineText, '\n'));
    assert!(!in_class(CharClass::LineText, '\r'));
    assert!(in_class(CharClass::NoFeed, '\r') && !in_class(CharClass::NoFeed, '\n'));
}

#[test]
fn runs_agree_with_nom() {
    for t in all_texts(&[' ', '\t', '\r', '\n', 'a'], 6) {
        let s = to_chars(&t);
        let (_, blanks) = multispace0::<&str, Error<&str>>(&t).unwrap();
        assert_eq!(skip_run(&s, 0, s.len(), CharClass::Blank), blanks.len(), "{:?}", t);
        let (_, spaces) = space0::<&str, Error<&str>>(&t).unwrap();
        assert_eq!(skip_run(&s, 0, s.len(), CharClass::Inline), spaces.len(), "{:?}", t);
        let some = space1::<&str, Error<&str>>(&t).is_ok();
        assert_eq!(skip_run(&s, 0, s.len(), CharClass::Inline) > 0, some, "{:?}", t);
    }
}

#[test]
fn lines_agree_with_nom() {
    for t in all_texts(&['\r', '\n', 'a', ' '], 7) {
        let s = to_chars(&t);
        let ending = line_ending::<&str, Error<&str>>(&t).ok().map(|(_, e)| e.len());
        assert_eq!(read_line_ending(&s, 0), ending, "{:?}", t);
        let text = not_line_ending::<&str, Error<&str>>(&t).ok();
        assert_eq!(read_line_text(&s, 0), text.map(|(_, x)| x.len()), "{:?}", t);
        let line = text.and_then(|(rest, x)| {
            line_ending::<&str, Error<&str>>(rest).ok().map(|(_, e)| (x.len(), x.len() + e.len()))
        });
        assert_eq!(read_line(&s, 0), line, "{:?}", t);
    }
}

#[test]
fn lines_from_a_later_position() {
    let s = to_chars("ab\ncd\r\nef");
    assert_eq!(read_line(&s, 0), Some((2, 3)));
    assert_eq!(read_line(&s, 1), Some((2, 3)));
    assert_eq!(read_line(&s, 2), Some((2, 3)));
    assert_eq!(read_line(&s, 3), Some((5, 7)));
    assert_eq!(read_line(&s, 7), None);
    assert_eq!(read_line(&s, 9), None);
    assert_eq!(read_line_text(&s, 7), Some(9));
    assert_eq!(read_line_ending(&s, 5), Some(7));
    assert_eq!(read_line_ending(&s, 6), Some(7));
    assert_eq!(read_line_ending(&s, 9), None);
}

#[test]
fn search_agrees_with_nom() {
    for t in all_texts(&['@', 'e', 'n', 'd', ' '], 7) {
        let s = to_chars(&t);
        let until = take_until::<&str, &str, Error<&str>>("@end")(&t).ok().map(|(_, x)| x.len());
        assert_eq!(find(&s, 0, "@end"), until, "{:?}", t);
        assert_eq!(find(&s, 0, "@end"), t.find("@end"), "{:?}", t);
        let tagged = tag::<&str, &str, Error<&str>>("@e")(&t).is_ok();
        assert_eq!(has_at(&s, 0, "@e"), tagged, "{:?}", t);
        assert_eq!(has_at(&s, 0, "@e"), t.starts_with("@e"));
    }
}

#[test]
fn search_from_a_later_position() {
    let s = to_chars("abcabc");
    assert_eq!(find(&s, 0, "bc"), Some(1));
    assert_eq!(find(&s, 1, "bc"), Some(1));
    assert_eq!(find(&s, 2, "bc"), Some(4));
    assert_eq!(find(&s, 5, "bc"), None);
    assert_eq!(find(&s, 6, "bc"), None);
    assert_eq!(find(&s, 3, ""), Some(3));
    assert_eq!(find(&s, 6, ""), Some(6));
    assert_eq!(find(&s, 0, "abcabcd"), None);
    assert!(has_at(&s, 3, "abc") && has_at(&s, 6, "") && !has_at(&s, 4, "abc"));
    let wide = to_chars("\u{e9}t\u{e9} \u{1f600} fin");
    assert_eq!(find(&wide, 0, "fin"), Some(6));
    assert_eq!(find(&wide, 0, "\u{1f600}"), Some(4));
}

#[test]
fn trimming_agrees_with_std() {
    for t in all_texts(&[' ', '\n', '\u{a0}', '\u{3000}', 'a', '\u{200b}'], 6) {
        let s = to_chars(&t);
        assert_eq!(trimmed_string(&s, 0, s.len()), t.trim(), "{:?}", t);
        let (a, b) = trim_bounds(&s, 0, s.len());
        assert_eq!(string_of(&s, a, b), t.trim());
        assert_eq!(skip_run_back(&s, 0, s.len(), CharClass::Whitespace), t.trim_end().chars().count());
    }
    let s = to_chars("ab  cd  ef");
    assert_eq!(trimmed_string(&s, 2, 8), "cd");
    assert_eq!(trimmed_string(&s, 2, 4), "");
    assert_eq!(trim_bounds(&s, 1, 9), (1, 9));
    assert_eq!(skip_run_back(&s, 3, 4, CharClass::Whitespace), 3);
}

#[test]
fn first_line_agrees_with_std() {
    for t in all_texts(&['\r', '\n', 'a', 'b'], 7) {
        let s = to_chars(&t);
        assert_eq!(first_line(&s), t.lines().next().unwrap_or(""), "{:?}", t);
    }
}

#[test]
fn numbers_agree_with_std() {
    for t in all_texts(&['+', '-', '0', '1', '9', ' ', 'a'], 5) {
        assert_eq!(parse_u32(&t), t.parse::<u32>().ok(), "{:?}", t);
    }
    for t in [
        "4294967295", "4294967296", "4294967290", "4294967300", "+4294967295", "42949672950",
        "00000000000000000030", "99999999999", "30", "030", "3 0", "30 ", "\u{0663}", "1\u{0660}",
        "1_000", "0x10", "1e3", "",
    ] {
        assert_eq!(parse_u32(t), t.parse::<u32>().ok(), "{:?}", t);
    }
    assert_eq!(parse_u32("4294967295"), Some(u32::MAX));
    assert_eq!(parse_u32("+7"), Some(7));
    assert_eq!(parse_u32("-7"), None);
}

#[test]
fn texts_and_their_characters() {
    let t = "a\u{e9}\u{1f600}\n";
    let s = to_chars(t);
    assert_eq!(s, vec!['a', '\u{e9}', '\u{1f600}', '\n']);
    assert_eq!(string_of(&s, 1, 3), "\u{e9}\u{1f600}");
    assert_eq!(string_of(&s, 2, 2), "");
    assert_eq!(rest_of(t, 2), "\u{1f600}\n");
    assert_eq!(rest_of(t, 4), "");
    assert_eq!(rest_of(t, 0), t);
    assert!(same_text("abc", "abc") && same_text("", ""));
    assert!(!same_text("abc", "abd") && !same_text("abc", "ab") && !same_text("ab", "abc"));
    assert!(!same_text("", "a"));
}
