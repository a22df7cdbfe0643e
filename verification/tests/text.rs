use gedbas::text::{append_decimal, join, parse_number, skip_prefix, trim, white_space};

#[test]
fn white_space_is_what_unicode_defines() {
    let mut code: u32 = 0;
    while code <= 0x10FFFF {
        if let Some(c) = char::from_u32(code) {
            assert_eq!(white_space(c), c.is_whitespace(), "U+{:04X}", code);
        }
        code += 1;
    }
}

#[test]
fn trim_cuts_both_ends_only() {
    assert_eq!(trim("  a b  "), "a b");
    assert_eq!(trim("\n\t x\u{a0}\u{3000}"), "x");
    assert_eq!(trim("x"), "x");
    assert_eq!(trim(""), "");
    assert_eq!(trim(" \r\n "), "");
    assert_eq!(trim("\u{e4} \u{f6}"), "\u{e4} \u{f6}");
    assert_eq!(trim("\u{200b}a\u{200b}"), "\u{200b}a\u{200b}");
}

#[test]
fn trim_agrees_with_the_standard_library() {
    let samples = [
        "", " ", "a", " a", "a ", " a ", "\u{2003}a\u{2003}b\u{2003}", "\u{85}x\u{1680}",
        "\u{2028}\u{2029}y\u{202f}\u{205f}", "  \u{fc}ber  ", "\t\u{b}\u{c}\rz\n",
    ];
    for s in samples {
        assert_eq!(trim(s), s.trim());
    }
}

#[test]
fn skip_prefix_counts_characters() {
    assert_eq!(skip_prefix("abcdef", 2), Some("cdef"));
    assert_eq!(skip_prefix("abcdef", 6), Some(""));
    assert_eq!(skip_prefix("abcdef", 7), None);
    assert_eq!(skip_prefix("abcdef", 0), Some("abcdef"));
    assert_eq!(skip_prefix("\u{e4}\u{f6}\u{fc}x", 3), Some("x"));
    assert_eq!(skip_prefix("", 0), Some(""));
    assert_eq!(skip_prefix("", 1), None);
}

#[test]
fn parse_number_reads_decimal() {
    assert_eq!(parse_number("0"), Some(0));
    assert_eq!(parse_number("7"), Some(7));
    assert_eq!(parse_number("1234567890"), Some(1234567890));
    assert_eq!(parse_number("007"), Some(7));
    assert_eq!(parse_number("+15"), Some(15));
}

#[test]
fn parse_number_rejects_what_is_not_a_number() {
    assert_eq!(parse_number(""), None);
    assert_eq!(parse_number("+"), None);
    assert_eq!(parse_number("-1"), None);
    assert_eq!(parse_number("++1"), None);
    assert_eq!(parse_number("1+"), None);
    assert_eq!(parse_number(" 1"), None);
    assert_eq!(parse_number("1 "), None);
    assert_eq!(parse_number("1_000"), None);
    assert_eq!(parse_number("12a"), None);
    assert_eq!(parse_number("0x10"), None);
    assert_eq!(parse_number("\u{661}\u{662}"), None);
    assert_eq!(parse_number("1.5"), None);
}

#[test]
fn parse_number_stops_at_the_machine_word() {
    let max = usize::MAX.to_string();
    assert_eq!(parse_number(&max), Some(usize::MAX));
    let mut over = max.clone();
    over.push('0');
    assert_eq!(parse_number(&over), None);
    let next = (usize::MAX as u128 + 1).to_string();
    assert_eq!(parse_number(&next), None);
    let padded = format!("000{}", max);
    assert_eq!(parse_number(&padded), Some(usize::MAX));
}

#[test]
fn parse_number_agrees_with_the_standard_library() {
    let samples = [
        "", "+", "-", "0", "+0", "-0", "00", "9", "10", "99", "100", "4294967295", "4294967296",
        "18446744073709551615", "18446744073709551616", "99999999999999999999999", "1e3", "١٢",
        "+ 1", "1\n", "૧", "12345678901234567890",
    ];
    for s in samples {
        assert_eq!(parse_number(s), s.parse::<usize>().ok(), "{:?}", s);
    }
}

#[test]
fn append_decimal_writes_digits_at_the_end() {
    let mut out = String::from("max=");
    append_decimal(&mut out, 50);
    assert_eq!(out, "max=50");
    let mut zero = String::new();
    append_decimal(&mut zero, 0);
    assert_eq!(zero, "0");
    let mut big = String::new();
    append_decimal(&mut big, usize::MAX);
    assert_eq!(big, usize::MAX.to_string());
    for n in [1usize, 9, 10, 11, 99, 100, 101, 12345, 1000000] {
        let mut s = String::new();
        append_decimal(&mut s, n);
        assert_eq!(s, n.to_string());
        assert_eq!(parse_number(&s), Some(n));
    }
}

#[test]
fn join_writes_the_pieces_in_order() {
    assert_eq!(join(&vec!["a", " b", "", "c "]), "a bc ");
    assert_eq!(join(&vec!["only"]), "only");
    assert_eq!(join(&Vec::new()), "");
    assert_eq!(join(&vec!["", ""]), "");
    assert_eq!(join(&vec!["\u{fc}", "ber"]), "\u{fc}ber");
}
