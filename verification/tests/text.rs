use simple_git_tui::text::{
    chain, chain3, chars_of, chars_without, contains_char, decimal_of, extend_texts, join_texts,
    push_text, same_text, signed_decimal_of, split_lines, starts_with, strip_class, strip_quotes,
    trim, CharClass,
};

#[test]
fn characters_of_a_text() {
    assert_eq!(chars_of("a\u{f1}b"), vec!['a', '\u{f1}', 'b']);
    assert_eq!(chars_of(""), Vec::<char>::new());
    assert_eq!(chars_without("\"a\"b\"", CharClass::Quote), vec!['a', 'b']);
    assert_eq!(chars_without("a/b\\c", CharClass::PathSeparator), vec!['a', 'b', 'c']);
    assert_eq!(chars_without(" a\tb ", CharClass::Whitespace), vec!['a', 'b']);
}

#[test]
fn strip_by_class() {
    assert_eq!(strip_class("//a/b\\", CharClass::PathSeparator), "a/b");
    assert_eq!(strip_class("  a  ", CharClass::Quote), "  a  ");
    assert!(CharClass::Whitespace.contains('\n'));
    assert!(!CharClass::Whitespace.contains('x'));
    assert!(CharClass::PathSeparator.contains('\\'));
}

#[test]
fn buffers_grow_line_by_line() {
    let mut v: Vec<String> = vec!["a".to_string()];
    push_text(&mut v, "b".to_string());
    extend_texts(&mut v, &vec!["c".to_string(), "d".to_string()]);
    extend_texts(&mut v, &Vec::new());
    assert_eq!(v, vec!["a", "b", "c", "d"]);
}

#[test]
fn trim_removes_unicode_white_space_at_both_ends() {
    assert_eq!(trim("  a b \t\n"), "a b");
    assert_eq!(trim("\u{a0}x\u{2003}"), "x");
    assert_eq!(trim(" \n "), "");
    assert_eq!(trim(""), "");
    assert_eq!(trim("abc"), "abc");
}

#[test]
fn strip_quotes_removes_all_quotes_at_both_ends() {
    assert_eq!(strip_quotes("\"a b\""), "a b");
    assert_eq!(strip_quotes("\"\"a\"b\"\""), "a\"b");
    assert_eq!(strip_quotes("\"\"\""), "");
    assert_eq!(strip_quotes("a"), "a");
}

#[test]
fn lines_as_the_standard_library_splits_them() {
    for s in [
        "", "a", "a\n", "a\nb", "a\r\nb\r\n", "\n", "\n\n", "a\r", "a\r\n\r\nb", "\r\n", "a\n\r",
        "\r\r\n", "x\ny\n\n",
    ] {
        let want: Vec<String> = s.lines().map(|l| l.to_string()).collect();
        assert_eq!(split_lines(s), want, "for {:?}", s);
    }
    assert_eq!(split_lines("a\r\nb\n\nc"), vec!["a", "b", "", "c"]);
}

#[test]
fn decimal_numbers() {
    assert_eq!(decimal_of(0), "0");
    assert_eq!(decimal_of(7), "7");
    assert_eq!(decimal_of(10), "10");
    assert_eq!(decimal_of(1234567890), "1234567890");
    assert_eq!(decimal_of(usize::MAX), usize::MAX.to_string());
    assert_eq!(signed_decimal_of(0), "0");
    assert_eq!(signed_decimal_of(-1), "-1");
    assert_eq!(signed_decimal_of(255), "255");
    assert_eq!(signed_decimal_of(i32::MIN), "-2147483648");
}

#[test]
fn join_with_separator() {
    let parts: Vec<String> = vec!["a".into(), "".into(), "c".into()];
    assert_eq!(join_texts(&parts, ", "), "a, , c");
    assert_eq!(join_texts(&vec!["x".to_string()], " "), "x");
    assert_eq!(join_texts(&Vec::new(), " "), "");
}

#[test]
fn comparisons_and_concatenation() {
    assert!(same_text("abc", "abc"));
    assert!(!same_text("abc", "abd"));
    assert!(!same_text("abc", "ab"));
    assert!(starts_with("--message=x", "--message="));
    assert!(!starts_with("--messag", "--message="));
    assert!(starts_with("x", ""));
    assert!(contains_char("a b", ' '));
    assert!(!contains_char("ab", ' '));
    assert_eq!(chain("a", "b"), "ab");
    assert_eq!(chain3("a", "", "c"), "ac");
}

#[test]
fn trimming_agrees_with_the_standard_library() {
    for s in [
        "", " ", "a", " a", "a ", "  a  b  ", "\t\r\n x \u{b}\u{c}", "\u{85}a\u{1680}",
        "\u{2000}\u{200a}b\u{2028}\u{2029}", "\u{202f}c\u{205f}\u{3000}", "\u{200b}d\u{200b}",
        "\"q\"", "\"\"", "x\"", "\"\"\"y\"z\"\"",
    ] {
        assert_eq!(trim(s), s.trim(), "trim of {:?}", s);
        assert_eq!(strip_quotes(s), s.trim_matches('"'), "quotes of {:?}", s);
        let sep: &[char] = &['/', '\\'];
        assert_eq!(strip_class(s, CharClass::PathSeparator), s.trim_matches(sep));
    }
}

#[test]
fn numbers_and_joins_agree_with_the_standard_library() {
    for n in [0usize, 1, 9, 10, 11, 99, 100, 101, 65535, 65536, 4294967295] {
        assert_eq!(decimal_of(n), n.to_string());
    }
    for i in [0i32, 1, -1, 9, -9, 10, -10, 127, -128, 32767, -32768, i32::MAX, i32::MIN] {
        assert_eq!(signed_decimal_of(i), i.to_string());
    }
    for parts in [vec![], vec![""], vec!["a"], vec!["a", "b"], vec!["", "", ""], vec!["x y", "z"]] {
        let owned: Vec<String> = parts.iter().map(|p| p.to_string()).collect();
        assert_eq!(join_texts(&owned, " "), parts.join(" "));
        assert_eq!(join_texts(&owned, ""), parts.join(""));
        assert_eq!(join_texts(&owned, "\n"), parts.join("\n"));
    }
}
