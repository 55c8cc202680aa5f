use wsgw_cdp::text::{
    decimal_text, first_line_of, parse_u16_text, parse_u64_text, second_word, trim_white_space,
};

#[test]
fn trim_removes_ascii_and_unicode_blanks() {
    assert_eq!(trim_white_space("  a b \t\n"), "a b");
    assert_eq!(trim_white_space("\u{3000}x\u{a0}\u{2028}"), "x");
    assert_eq!(trim_white_space(" \r\n\t "), "");
    assert_eq!(trim_white_space(""), "");
    assert_eq!(trim_white_space("\u{200b}x"), "\u{200b}x");
}

#[test]
fn trim_agrees_with_str_trim() {
    for s in ["", " ", "a", " a ", "\u{85}a\u{85}", "\u{feff}a", "a\u{202f}b\u{205f}"] {
        assert_eq!(trim_white_space(s), s.trim());
    }
}

#[test]
fn first_line_as_lines_gives_it() {
    assert_eq!(first_line_of("HTTP/1.1 200 OK\r\nX: y"), "HTTP/1.1 200 OK");
    assert_eq!(first_line_of(""), "");
    assert_eq!(first_line_of("abc"), "abc");
    assert_eq!(first_line_of("a\r\r\nb"), "a\r");
    assert_eq!(first_line_of("\nrest"), "");
    for s in ["x\r\ny", "x\ny", "x\r", "\r\n", "a\rb\nc"] {
        assert_eq!(first_line_of(s), s.lines().next().unwrap_or(""));
    }
}

#[test]
fn second_word_as_split_whitespace_gives_it() {
    assert_eq!(second_word("HTTP/1.1  200 OK"), Some("200".to_string()));
    assert_eq!(second_word("one"), None);
    assert_eq!(second_word("   "), None);
    assert_eq!(second_word("\u{3000}a\u{3000}b\u{3000}c"), Some("b".to_string()));
}

#[test]
fn u16_parsing_follows_str_parse() {
    for s in [
        "9222", "+80", "0080", "65535", "65536", "", "+", "-1", "-0", " 1", "1 ", "１２", "0", "+0",
        "99999999999999999999999",
    ] {
        assert_eq!(parse_u16_text(s), s.parse::<u16>().ok(), "input {:?}", s);
    }
}

#[test]
fn u64_parsing_follows_str_parse() {
    for s in [
        "18446744073709551615",
        "18446744073709551616",
        "99999999999999999999x",
        "+18446744073709551615",
        "400",
        "4OO",
        "",
    ] {
        assert_eq!(parse_u64_text(s), s.parse::<u64>().ok(), "input {:?}", s);
    }
}

#[test]
fn decimal_text_writes_numbers() {
    assert_eq!(decimal_text(0), "0");
    assert_eq!(decimal_text(9222), "9222");
    assert_eq!(decimal_text(u64::MAX), u64::MAX.to_string());
}

#[test]
fn port_text_reads_back_as_the_port() {
    for p in [1u16, 9, 10, 80, 9222, 65535] {
        assert_eq!(parse_u16_text(&decimal_text(p as u64)), Some(p));
    }
}
