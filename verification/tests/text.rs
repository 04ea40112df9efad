use git_author_rewrite::text::{
    append_char, append_chars, concat2, concat3, contains_char, indent_of, is_space, join_lines,
    same_text, same_trimmed, split_lines, string_of, to_chars, trim, trim_bounds,
};

#[test]
fn is_space_agrees_with_the_unicode_property() {
    let mut code: u32 = 0;
    while code <= 0x10FFFF {
        if let Some(c) = char::from_u32(code) {
            assert_eq!(is_space(c), c.is_whitespace(), "U+{:04X}", code);
        }
        code += 1;
    }
}

#[test]
fn is_space_on_named_characters() {
    assert!(is_space(' '));
    assert!(is_space('\t'));
    assert!(is_space('\n'));
    assert!(is_space('\r'));
    assert!(is_space('\u{a0}'));
    assert!(is_space('\u{3000}'));
    assert!(!is_space('a'));
    assert!(!is_space('#'));
    assert!(!is_space('\u{200b}'));
}

#[test]
fn to_chars_gives_each_character() {
    assert_eq!(to_chars("a\u{e9}\u{4e16}"), vec!['a', '\u{e9}', '\u{4e16}']);
    assert_eq!(to_chars(""), Vec::<char>::new());
}

#[test]
fn string_of_takes_a_range() {
    let v = vec!['a', 'b', 'c', 'd'];
    assert_eq!(string_of(&v, 1, 3), "bc");
    assert_eq!(string_of(&v, 2, 2), "");
    assert_eq!(string_of(&v, 0, 4), "abcd");
}

#[test]
fn append_adds_at_the_end() {
    let mut s = String::from("x");
    append_char(&mut s, 'y');
    assert_eq!(s, "xy");
    append_chars(&mut s, &vec!['a', 'b', 'c'], 1, 3);
    assert_eq!(s, "xybc");
}

#[test]
fn concat_joins_in_order() {
    assert_eq!(concat2("ab", "cd"), "abcd");
    assert_eq!(concat3("(", "x", ")"), "(x)");
}

#[test]
fn indent_counts_leading_whitespace() {
    assert_eq!(indent_of(&to_chars(" \t x ")), 3);
    assert_eq!(indent_of(&to_chars("x")), 0);
    assert_eq!(indent_of(&to_chars("   ")), 3);
    assert_eq!(indent_of(&to_chars("")), 0);
}

#[test]
fn trim_bounds_mark_the_trimmed_part() {
    assert_eq!(trim_bounds(&to_chars("  ab c \n")), (2, 6));
    assert_eq!(trim_bounds(&to_chars("   ")), (3, 3));
    assert_eq!(trim_bounds(&to_chars("")), (0, 0));
}

#[test]
fn trim_agrees_with_std() {
    let samples = [
        "",
        " ",
        "a",
        "  a  ",
        "\t\na b\r\n",
        "\u{a0}x\u{3000}",
        "Alice ",
        " alice@x.com",
        "no-space",
        " \u{2003}inner  space\u{2003} ",
    ];
    for sample in samples {
        assert_eq!(trim(sample), sample.trim());
    }
}

#[test]
fn same_trimmed_sets_outer_whitespace_aside() {
    assert!(same_trimmed("Alice ", "Alice"));
    assert!(same_trimmed("  a b ", "a b"));
    assert!(same_trimmed("", "   "));
    assert!(!same_trimmed("a b", "ab"));
    assert!(!same_trimmed("Alice", "Bob"));
    assert!(!same_trimmed("ab", "abc"));
}

#[test]
fn same_text_compares_exactly() {
    assert!(same_text("--manual", "--manual"));
    assert!(!same_text("--manual", "--manual "));
    assert!(!same_text("a", "b"));
    assert!(same_text("", ""));
}

#[test]
fn contains_char_finds_a_space() {
    assert!(contains_char("My App", ' '));
    assert!(!contains_char("MyApp", ' '));
    assert!(!contains_char("", ' '));
}

#[test]
fn split_lines_agrees_with_std() {
    let samples = [
        "",
        "\n",
        "a",
        "a\n",
        "a\nb",
        "a\n\nb\n",
        "a\r\nb\r\n",
        "a\rb\n",
        "a\r",
        "\r\n",
        "\n\n",
        "pick 1 a\n# c\n",
        "x\r\r\ny",
    ];
    for sample in samples {
        let expected: Vec<String> = sample.lines().map(|line| line.to_string()).collect();
        assert_eq!(split_lines(sample), expected, "{:?}", sample);
    }
}

#[test]
fn join_lines_puts_line_feeds_between() {
    assert_eq!(join_lines(&vec![]), "");
    assert_eq!(join_lines(&vec!["a".to_string()]), "a");
    assert_eq!(join_lines(&vec!["a".to_string(), "".to_string(), "b".to_string()]), "a\n\nb");
}
