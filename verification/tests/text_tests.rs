use fritzbox_rest::text::{chars_of, parse_i32, parse_u16, parse_usize, strip_newlines};

const SAMPLES: &[&str] = &[
    "", "0", "1", "+1", "-1", "+", "-", "--1", "+-1", "12a", " 1", "1 ", "007", "-0",
    "2147483647", "2147483648", "-2147483648", "-2147483649", "65535", "65536",
    "18446744073709551615", "18446744073709551616", "99999999999999999999999", "1\n", "١",
    "+0", "abc", "42",
];

#[test]
fn chars_of_keeps_every_character() {
    assert_eq!(chars_of("aä😀\n"), vec!['a', 'ä', '😀', '\n']);
    assert_eq!(chars_of(""), Vec::<char>::new());
}

#[test]
fn strip_newlines_removes_only_line_feeds() {
    assert_eq!(strip_newlines("1\n"), "1");
    assert_eq!(strip_newlines("\n2\n3\n\n"), "23");
    assert_eq!(strip_newlines("a\r\nb"), "a\rb");
    assert_eq!(strip_newlines(""), "");
}

#[test]
fn parse_i32_reads_as_std_does() {
    for s in SAMPLES {
        assert_eq!(parse_i32(s), s.parse::<i32>().ok(), "{:?}", s);
    }
    assert_eq!(parse_i32("-2147483648"), Some(i32::MIN));
    assert_eq!(parse_i32("2147483648"), None);
    assert_eq!(parse_i32("+17"), Some(17));
    assert_eq!(parse_i32("-"), None);
}

#[test]
fn parse_usize_reads_as_std_does() {
    for s in SAMPLES {
        assert_eq!(parse_usize(s), s.parse::<usize>().ok(), "{:?}", s);
    }
    assert_eq!(parse_usize("-1"), None);
    assert_eq!(parse_usize("+215"), Some(215));
}

#[test]
fn parse_u16_reads_as_std_does() {
    for s in SAMPLES {
        assert_eq!(parse_u16(s), s.parse::<u16>().ok(), "{:?}", s);
    }
    assert_eq!(parse_u16("65535"), Some(65535));
    assert_eq!(parse_u16("65536"), None);
}
