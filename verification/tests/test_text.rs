use rsnip::infrastructure::parsers::default::{classify_line, Line};
use rsnip::util::text::{
    char_is_whitespace, chars_of, contains, decimal_string, join_strings, lowercase_ascii,
    split_lines, starts_with, string_of, trim, unescape_newlines,
};

fn chars(s: &str) -> Vec<char> {
    s.chars().collect()
}

#[test]
fn given_texts_when_splitting_lines_then_agrees_with_std() {
    for text in [
        "",
        "\n",
        "a",
        "a\n",
        "a\n\n",
        "\n\na",
        "a\r\nb\rc\r\n",
        "a\r",
        "\r\n",
        "\r\r\n\n\r",
        "é\u{2028}x\nü",
    ] {
        let expected: Vec<Vec<char>> = text.lines().map(|l| l.chars().collect()).collect();
        assert_eq!(split_lines(&chars(text)), expected, "lines of {:?}", text);
    }
}

#[test]
fn given_texts_when_trimming_then_agrees_with_std() {
    for text in [
        "",
        " ",
        " a ",
        "\t\u{b}\u{c}\r\n a b \u{85}\u{a0}",
        "\u{1680}x\u{2000}\u{200a}\u{2028}\u{2029}\u{202f}\u{205f}\u{3000}",
        "\u{200b}x\u{200b}",
        "\u{1c}x\u{1f}",
        "\u{180e}y\u{feff}",
    ] {
        assert_eq!(string_of(&trim(&chars(text))), text.trim(), "trim of {:?}", text);
    }
    for code in 0..0x3100u32 {
        if let Some(c) = char::from_u32(code) {
            assert_eq!(char_is_whitespace(c), c.is_whitespace(), "U+{:04X}", code);
        }
    }
}

#[test]
fn given_texts_when_searching_then_agrees_with_std() {
    let cases = [
        ("", ""),
        ("a", ""),
        ("", "a"),
        ("abc", "bc"),
        ("abc", "abcd"),
        ("aab", "ab"),
        ("{ {", "{{"),
        ("x{{", "{{"),
    ];
    for (text, pattern) in cases {
        assert_eq!(contains(&chars(text), &chars(pattern)), text.contains(pattern));
        assert_eq!(
            starts_with(&chars(text), &chars(pattern)),
            text.starts_with(pattern)
        );
    }
    assert_eq!(chars_of("aé\u{10000}"), chars("aé\u{10000}"));
    assert_eq!(string_of(&chars("aé\u{10000}")), "aé\u{10000}");
}

#[test]
fn given_numbers_when_writing_decimal_then_agrees_with_std() {
    for n in [0usize, 1, 9, 10, 11, 99, 100, 101, 12345, usize::MAX] {
        assert_eq!(decimal_string(n), n.to_string());
    }
}

#[test]
fn given_parts_when_joining_then_agrees_with_std() {
    let cases: Vec<Vec<String>> = vec![
        vec![],
        vec!["".to_string()],
        vec!["a".to_string()],
        vec!["a".to_string(), "".to_string(), "b".to_string()],
    ];
    for parts in cases {
        assert_eq!(join_strings(&parts, ", "), parts.join(", "));
        assert_eq!(join_strings(&parts, ""), parts.join(""));
    }
}

#[test]
fn given_escapes_when_unescaping_then_agrees_with_std() {
    for text in ["", "\\", "\\n", "a\\nb\\n", "\\\\n", "\\n\\", "n\\", "\\N", "\\\n"] {
        assert_eq!(unescape_newlines(text), text.replace("\\n", "\n"));
    }
    assert_eq!(string_of(&lowercase_ascii(&chars("AbZ[@É"))), "abz[@É");
}

#[test]
fn given_lines_when_classifying_then_trimmed_line_decides() {
    let kind = |line: &str| classify_line(&chars(line));
    assert_eq!(kind("--- name"), Line::Opening("name".to_string()));
    assert_eq!(kind("  ---   a b  "), Line::Opening("  a b".to_string()));
    assert_eq!(kind("---"), Line::Closing);
    assert_eq!(kind(" --- \t"), Line::Closing);
    assert_eq!(kind("----"), Line::Text { blank: false });
    assert_eq!(kind("---x"), Line::Text { blank: false });
    assert_eq!(kind(":  note  "), Line::Comment("note".to_string()));
    assert_eq!(kind(" :"), Line::Comment("".to_string()));
    assert_eq!(kind("a: b"), Line::Text { blank: false });
    assert_eq!(kind(""), Line::Text { blank: true });
    assert_eq!(kind(" \t "), Line::Text { blank: true });
}
