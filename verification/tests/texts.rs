use time_tracking::text::decimal_text;
use time_tracking::text::is_white_space_char;
use time_tracking::text::parse_index;
use time_tracking::text::same_text;
use time_tracking::text::trim;
use time_tracking::text::trim_end;

#[test]
fn white_space_is_what_the_standard_library_says() {
    let mut code: u32 = 0;
    while code <= 0x10FFFF {
        if let Some(c) = char::from_u32(code) {
            assert_eq!(is_white_space_char(c), c.is_whitespace(), "U+{:04X}", code);
        }
        code += 1;
    }
}

#[test]
fn trim_removes_white_space_at_both_ends() {
    assert_eq!(trim("  n \n"), "n");
    assert_eq!(trim("\tshow\r\n"), "show");
    assert_eq!(trim("a b"), "a b");
    assert_eq!(trim("  a  b  "), "a  b");
    assert_eq!(trim(""), "");
    assert_eq!(trim(" \t\n"), "");
    assert_eq!(trim("\u{3000}日本語 ok\u{2003}"), "日本語 ok");
    assert_eq!(trim("x"), "x");
}

#[test]
fn trim_agrees_with_the_standard_library() {
    let samples = [
        "", " ", "a", " a", "a ", " a ", "\n\n", "h\n", "  lunch  \r\n", "é ", " \u{a0}é\u{85}",
        "\u{1680}x\u{2028}\u{2029}", "tab\there", "\u{200b}zero width\u{200b}", " 𝄞 ",
    ];
    for s in samples {
        assert_eq!(trim(s), s.trim(), "{:?}", s);
        assert_eq!(trim_end(s), s.trim_end(), "{:?}", s);
    }
}

#[test]
fn trim_end_keeps_the_front() {
    assert_eq!(trim_end("  more text \n"), "  more text");
    assert_eq!(trim_end("\n"), "");
    assert_eq!(trim_end(""), "");
    assert_eq!(trim_end(" a b"), " a b");
}

#[test]
fn same_text_compares_by_value() {
    assert!(same_text("quit", "quit"));
    assert!(same_text("", ""));
    assert!(!same_text("quit", "Quit"));
    assert!(!same_text("q", "quit"));
    assert!(!same_text("quit", "q"));
}

#[test]
fn decimal_text_writes_numbers() {
    assert_eq!(decimal_text(0), "0");
    assert_eq!(decimal_text(7), "7");
    assert_eq!(decimal_text(10), "10");
    assert_eq!(decimal_text(1234567890), "1234567890");
    assert_eq!(decimal_text(usize::MAX), usize::MAX.to_string());
    for n in 0..1200usize {
        assert_eq!(decimal_text(n), n.to_string());
    }
}

#[test]
fn parse_index_reads_numerals_below_the_limit() {
    assert_eq!(parse_index("0", 1), Some(0));
    assert_eq!(parse_index("3", 4), Some(3));
    assert_eq!(parse_index("4", 4), None);
    assert_eq!(parse_index("12", 100), Some(12));
    assert_eq!(parse_index("007", 100), Some(7));
    assert_eq!(parse_index("+5", 100), Some(5));
    assert_eq!(parse_index("0", 0), None);
    assert_eq!(parse_index("18446744073709551615", usize::MAX), None);
    assert_eq!(parse_index("18446744073709551614", usize::MAX), Some(18446744073709551614));
    assert_eq!(parse_index("99999999999999999999999999", usize::MAX), None);
}

#[test]
fn parse_index_rejects_what_is_no_numeral() {
    for s in ["", "+", "-", "-1", "q", "1a", "a1", " 1", "1 ", "1.0", "++1", "1+", "٣", "１", "0x1",
        "1_0"]
    {
        assert_eq!(parse_index(s, 1000), None, "{:?}", s);
    }
}

#[test]
fn parse_index_agrees_with_the_standard_library() {
    let samples = [
        "0", "1", "9", "10", "+0", "+10", "0010", "", "+", "-0", "5x", "x5", "٣", "12345",
        "18446744073709551616", "٠", " 7", "7\n",
    ];
    for limit in [0usize, 1, 10, 11, 12346, usize::MAX] {
        for s in samples {
            let expected = match s.parse::<usize>() {
                Ok(n) if n < limit => Some(n),
                _ => None,
            };
            assert_eq!(parse_index(s, limit), expected, "{:?} below {}", s, limit);
        }
    }
}
