use jupyter_control::text::{chars_of, is_whitespace, split_lines, trim};

fn std_lines(text: &str) -> Vec<String> {
    text.lines().map(str::to_owned).collect()
}

#[test]
fn whitespace_agrees_with_std_on_every_char() {
    let mut code: u32 = 0;
    while code <= 0x10FFFF {
        if let Some(c) = char::from_u32(code) {
            assert_eq!(is_whitespace(c), c.is_whitespace(), "U+{:04X}", code);
        }
        code += 1;
    }
}

#[test]
fn whitespace_of_named_characters() {
    assert!(is_whitespace(' '));
    assert!(is_whitespace('\t'));
    assert!(is_whitespace('\n'));
    assert!(is_whitespace('\r'));
    assert!(is_whitespace('\u{3000}'));
    assert!(!is_whitespace('a'));
    assert!(!is_whitespace('\u{180E}'));
    assert!(!is_whitespace('\u{200B}'));
}

#[test]
fn chars_of_keeps_every_character_in_order() {
    assert_eq!(chars_of(""), Vec::<char>::new());
    assert_eq!(chars_of("a\u{e9}\u{4e2d}\n"), vec!['a', '\u{e9}', '\u{4e2d}', '\n']);
}

#[test]
fn trim_removes_whitespace_at_both_ends_only() {
    assert_eq!(trim("  4.0.1\n"), "4.0.1");
    assert_eq!(trim("\r\n 7.2.0 rc1 \t"), "7.2.0 rc1");
    assert_eq!(trim("plain"), "plain");
    assert_eq!(trim(""), "");
    assert_eq!(trim(" \n\t "), "");
    assert_eq!(trim("\u{3000}\u{4e2d} \u{6587}\u{a0}"), "\u{4e2d} \u{6587}");
}

#[test]
fn trim_agrees_with_std() {
    let samples = [
        "",
        " ",
        "a",
        " a",
        "a ",
        " a b ",
        "\n\n4.1.0\r\n",
        "\u{2003}x\u{2003}",
        "\u{200b} y \u{200b}",
        "\t\u{feff}z\n",
    ];
    for sample in samples {
        assert_eq!(trim(sample), sample.trim(), "{:?}", sample);
    }
}

#[test]
fn split_lines_of_three_lines() {
    assert_eq!(
        split_lines("3.11.4\n/usr/bin/python\nLinux-6.1-x86_64\n"),
        vec!["3.11.4", "/usr/bin/python", "Linux-6.1-x86_64"]
    );
}

#[test]
fn split_lines_of_an_empty_text_is_empty() {
    assert_eq!(split_lines(""), Vec::<String>::new());
}

#[test]
fn split_lines_needs_no_final_line_ending() {
    assert_eq!(split_lines("a\nb"), vec!["a", "b"]);
    assert_eq!(split_lines("a\nb\n"), vec!["a", "b"]);
}

#[test]
fn split_lines_keeps_empty_lines() {
    assert_eq!(split_lines("\n"), vec![""]);
    assert_eq!(split_lines("a\n\nb"), vec!["a", "", "b"]);
    assert_eq!(split_lines("\n\n"), vec!["", ""]);
}

#[test]
fn split_lines_drops_a_return_only_before_a_line_feed() {
    assert_eq!(split_lines("a\r\nb\r\n"), vec!["a", "b"]);
    assert_eq!(split_lines("a\rb\n"), vec!["a\rb"]);
    assert_eq!(split_lines("a\r"), vec!["a\r"]);
    assert_eq!(split_lines("a\r\r\n"), vec!["a\r"]);
    assert_eq!(split_lines("\r\n"), vec![""]);
}

#[test]
fn split_lines_agrees_with_std() {
    let samples = [
        "",
        "\n",
        "\r",
        "\r\n",
        "\n\r",
        "a",
        "a\n",
        "a\r\n",
        "a\r",
        "a\n\r",
        "a\r\nb",
        "a\n\nb\n\n",
        "\u{4e2d}\u{6587}\r\n\u{e9}\n",
        "one\ntwo\nthree\nfour\n",
        "\r\r\n\r",
    ];
    for sample in samples {
        assert_eq!(split_lines(sample), std_lines(sample), "{:?}", sample);
    }
}
