use compose_blueprint::pattern::{find_first, group, has_group, has_match};
use compose_blueprint::text::{
    append_chars, chars_of, decimal, found_at, joined, replace_text, same_text, split_lines,
    string_of, strip_whitespace, trim_chars, whitespace,
};

fn stripped(s: &str) -> String {
    string_of(&strip_whitespace(&chars_of(s)))
}

fn trimmed(s: &str) -> String {
    string_of(&trim_chars(&chars_of(s)))
}

fn lines(s: &str) -> Vec<String> {
    split_lines(&chars_of(s)).iter().map(string_of).collect()
}

#[test]
fn numbers_are_written_in_decimal() {
    assert_eq!(decimal(0), "0");
    assert_eq!(decimal(7), "7");
    assert_eq!(decimal(10), "10");
    assert_eq!(decimal(3000), "3000");
    assert_eq!(decimal(50006), "50006");
    assert_eq!(decimal(4294967295), "4294967295");
}

#[test]
fn occurrences_are_replaced_from_the_left() {
    assert_eq!(replace_text("aaa", "aa", "b"), "ba");
    assert_eq!(replace_text("\"\"\"", "\"\"", "\""), "\"\"");
    assert_eq!(replace_text("a})b,}", "})", "}"), "a}b,}");
    assert_eq!(replace_text("abc", "", "x"), "abc");
    assert_eq!(replace_text("", "a", "x"), "");
    assert_eq!(replace_text("${pulumi.cwd}", "${pulumi.cwd}", "."), ".");
    assert_eq!(replace_text("héllo wörld", "ö", "oe"), "héllo woerld");
    assert_eq!(replace_text("abab", "ab", "abab"), "abababab");
}

#[test]
fn texts_are_compared_and_joined() {
    assert!(same_text("", ""));
    assert!(same_text("héllo", "héllo"));
    assert!(!same_text("a", "ab"));
    assert!(!same_text("ab", "ac"));
    assert_eq!(joined("a", "b"), "ab");
    assert_eq!(joined("", ""), "");
    assert_eq!(string_of(&chars_of("wörld")), "wörld");
    let mut out = chars_of("ab");
    append_chars(&mut out, &chars_of("cd"));
    assert_eq!(string_of(&out), "abcd");
    assert!(found_at(&chars_of("abc"), 1, &chars_of("bc")));
    assert!(!found_at(&chars_of("abc"), 2, &chars_of("bc")));
    assert!(found_at(&chars_of("abc"), 3, &chars_of("")));
}

#[test]
fn white_space_is_stripped_and_trimmed() {
    assert_eq!(stripped(" a\tb\r\nc\u{a0}d\u{3000} "), "abcd");
    assert_eq!(stripped(""), "");
    assert_eq!(trimmed("  a b \n"), "a b");
    assert_eq!(trimmed(" \t "), "");
    assert_eq!(trimmed("x"), "x");
    for c in ['\u{9}', '\u{d}', ' ', '\u{85}', '\u{1680}', '\u{2000}', '\u{200a}', '\u{2028}', '\u{205f}'] {
        assert!(whitespace(c));
        assert!(c.is_whitespace());
    }
    for c in ['a', '\u{8}', '\u{e}', '\u{200b}', '\u{2030}', '\u{feff}'] {
        assert!(!whitespace(c));
        assert!(!c.is_whitespace());
    }
}

#[test]
fn lines_are_split_at_line_feeds() {
    assert_eq!(lines(""), vec![""]);
    assert_eq!(lines("a"), vec!["a"]);
    assert_eq!(lines("a\nb"), vec!["a", "b"]);
    assert_eq!(lines("a\n"), vec!["a", ""]);
    assert_eq!(lines("\n\na\r\n"), vec!["", "", "a\r", ""]);
}

#[test]
fn patterns_are_matched() {
    let found = find_first(r"(a+)(b)?(c)", "xxaacaabc").unwrap();
    assert_eq!(group(&found, 0), "aac");
    assert_eq!(group(&found, 1), "aa");
    assert!(!has_group(&found, 2));
    assert_eq!(group(&found, 2), "");
    assert!(has_group(&found, 3));
    assert!(!has_group(&found, 4));
    assert_eq!(group(&found, 4), "");
    assert_eq!(find_first("a", "bbb"), None);
    assert_eq!(find_first("(", "("), None);
    assert!(has_match("^[0-9]+", "12ab"));
    assert!(!has_match("^[0-9]+", "ab12"));
    assert!(!has_match("(", "("));
}
