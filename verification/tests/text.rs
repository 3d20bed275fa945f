use memhover::text::{
    chars_of, contains, eq_ignore_ascii_case, is_whitespace, last_index_of, starts_with, string_of,
    trim,
};

fn trimmed_text(s: &str) -> String {
    string_of(trim(&chars_of(s)))
}

#[test]
fn characters_there_and_back() {
    assert_eq!(chars_of("a\u{1F600}"), vec!['a', '\u{1F600}']);
    assert_eq!(string_of(&['a', '\u{1F600}']), "a\u{1F600}");
    assert_eq!(string_of(&chars_of("")), "");
}

#[test]
fn whitespace_is_that_of_std() {
    for n in 0..=0x10FFFFu32 {
        if let Some(c) = char::from_u32(n) {
            assert_eq!(is_whitespace(c), c.is_whitespace(), "U+{:04X}", n);
        }
    }
}

#[test]
fn trim_takes_both_ends() {
    for s in ["", " ", "\t \n", "a", " a", "a ", "  a b\u{3000}", "\u{2003}x\u{85}"] {
        assert_eq!(trimmed_text(s), s.trim());
    }
    assert_eq!(trimmed_text("  a b  "), "a b");
}

#[test]
fn searching_is_that_of_std() {
    let words = ["", "a", "ab", "b", "aba", "abab", "ababab", " - ", "x - y - z", "- -", "\u{e9}a"];
    for s in words {
        for part in words {
            let (s_chars, part_chars) = (chars_of(s), chars_of(part));
            assert_eq!(starts_with(&s_chars, &part_chars), s.starts_with(part));
            assert_eq!(contains(&s_chars, &part_chars), s.contains(part));
            let expected = s.rfind(part).map(|at| s[..at].chars().count());
            assert_eq!(last_index_of(&s_chars, &part_chars), expected);
        }
    }
    assert_eq!(last_index_of(&chars_of("x - y - z"), &chars_of(" - ")), Some(5));
}

#[test]
fn case_of_ascii_letters_only_is_ignored() {
    assert!(eq_ignore_ascii_case("Explorer.EXE", "explorer.exe"));
    assert!(!eq_ignore_ascii_case("explorer.ex", "explorer.exe"));
    let words = ["", "@", "`", "[", "{", "A", "a", "Z", "z", "\u{c9}", "\u{e9}", "aZ", "Az"];
    for a in words {
        for b in words {
            assert_eq!(eq_ignore_ascii_case(a, b), a.eq_ignore_ascii_case(b));
        }
    }
}
