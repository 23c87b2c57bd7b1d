use market_pulse::number::{read_loose_real, read_real, writes_real};
use market_pulse::text::{
    contains, is_at_most, join, parse_i64, parse_unsigned, split, take_chars, to_lower, trim,
    write_i64, write_two, write_u64,
};

#[test]
fn white_space_is_trimmed_as_std_does() {
    for s in ["", "  ", " a ", "\u{a0}x\u{3000}", "\u{200b}x", "\t\r\n\u{85}y\u{2028}", "a b", "\u{feff}z"] {
        assert_eq!(trim(s), s.trim());
    }
}

#[test]
fn every_white_character_is_trimmed() {
    for n in 0..0x11_0000u32 {
        if let Some(c) = char::from_u32(n) {
            assert_eq!(market_pulse::text::char_is_white(c), c.is_whitespace(), "{:x}", n);
        }
    }
}

#[test]
fn whole_numbers_are_read_as_std_does() {
    for s in [
        "0", "-0", "+7", "+", "-", "", "007", "9223372036854775807", "9223372036854775808",
        "-9223372036854775808", "-9223372036854775809", "1.0", " 1", "１", "99999999999999999999999",
    ] {
        assert_eq!(parse_i64(s), s.parse::<i64>().ok(), "{}", s);
        assert_eq!(parse_unsigned(s, u64::MAX), s.parse::<u64>().ok(), "{}", s);
        assert_eq!(parse_unsigned(s, u32::MAX as u64), s.parse::<u32>().ok().map(|n| n as u64), "{}", s);
    }
}

#[test]
fn real_numbers_are_told_as_std_does() {
    for s in [
        "1", "1.", ".5", ".", "", "-", "+1.5", "-.5e3", "1e", "1e+", "1e-7", "E5", "1E5", "inf",
        "-Infinity", "+INF", "nan", "NaN", "infinit", "1_000", "0x10", " 1", "1 ", "1e5.0", "--1",
        "1.2.3", "e", "+.e1", "5e0005", "１",
    ] {
        assert_eq!(writes_real(s), s.parse::<f64>().is_ok(), "{}", s);
        assert_eq!(read_real(s).is_some(), s.parse::<f64>().is_ok(), "{}", s);
    }
}

#[test]
fn loose_numbers_drop_signs_and_percents() {
    assert_eq!(read_loose_real(" +12.5% ").unwrap().text, "12.5");
    assert_eq!(read_loose_real("-3").unwrap().text, "-3");
    assert_eq!(read_loose_real("1+2").unwrap().text, "12");
    assert_eq!(read_loose_real("%"), None);
    assert_eq!(read_loose_real("—"), None);
}

#[test]
fn texts_are_searched_and_cut() {
    assert!(contains("东方财富", "方财"));
    assert!(contains("abc", ""));
    assert!(!contains("abc", "abcd"));
    assert_eq!(take_chars("百度财经首页", 2), "百度");
    assert_eq!(take_chars("ab", 10), "ab");
    assert_eq!(to_lower("AbC-É"), "abc-É");
    assert_eq!(split("1,2,,3", ','), vec!["1", "2", "", "3"]);
    assert_eq!(split("", ','), vec![""]);
    assert_eq!(join(&vec!["a".to_string(), "b".to_string()], "; "), "a; b");
    assert_eq!(join(&Vec::new(), ", "), "");
}

#[test]
fn texts_sort_by_code_points() {
    for a in ["", "2026-09-01", "2026-09-10", "2026-1", "百", "b", "-0711"] {
        for b in ["", "2026-09-01", "2026-09-10", "2026-1", "百", "b", "-0711"] {
            assert_eq!(is_at_most(a, b), a <= b);
        }
    }
}

#[test]
fn numbers_are_written_in_decimal() {
    assert_eq!(write_u64(0), "0");
    assert_eq!(write_u64(u64::MAX), "18446744073709551615");
    assert_eq!(write_i64(-7), "-7");
    assert_eq!(write_two(5), "05");
    assert_eq!(write_two(42), "42");
}
