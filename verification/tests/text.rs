use consecrates::text::{
    chars_of, digit_of, digit_str, find_from, has, has_at, push_decimal, read_number, str_eq,
};

fn chars(s: &str) -> Vec<char> {
    s.chars().collect()
}

#[test]
fn str_eq_compares_characters() {
    assert!(str_eq("", ""));
    assert!(str_eq("alpha", "alpha"));
    assert!(!str_eq("alpha", "alpha "));
    assert!(!str_eq("alpha", "alphb"));
    assert!(!str_eq("alpha", ""));
    assert!(str_eq("na\u{ef}ve", "na\u{ef}ve"));
    assert!(!str_eq("na\u{ef}ve", "naive"));
}

#[test]
fn chars_of_lists_characters() {
    assert_eq!(chars_of(""), Vec::<char>::new());
    assert_eq!(chars_of("a=b"), vec!['a', '=', 'b']);
    assert_eq!(chars_of("\u{e9}t\u{e9}"), vec!['\u{e9}', 't', '\u{e9}']);
}

#[test]
fn has_at_looks_at_one_position() {
    let hay = chars("category=web");
    assert!(has_at(&hay, 0, &chars("cat")));
    assert!(has_at(&hay, 8, &chars("=web")));
    assert!(!has_at(&hay, 1, &chars("cat")));
    assert!(!has_at(&hay, 9, &chars("webs")));
    assert!(!has_at(&hay, 13, &chars("")));
    assert!(has_at(&hay, 12, &chars("")));
}

#[test]
fn has_finds_a_pattern_anywhere() {
    assert!(has(&chars("monkey"), "key"));
    assert!(has(&chars("keyword=x"), "keyword="));
    assert!(has(&chars("xkw"), "kw"));
    assert!(!has(&chars("ke"), "key"));
    assert!(!has(&chars(""), "key"));
    assert!(!has(&chars("k-e-y"), "key"));
    assert!(has(&chars("abc"), ""));
}

#[test]
fn find_from_gives_the_first_index() {
    let hay = chars("a=b=c");
    assert_eq!(find_from(&hay, 0, '='), 1);
    assert_eq!(find_from(&hay, 1, '='), 1);
    assert_eq!(find_from(&hay, 2, '='), 3);
    assert_eq!(find_from(&hay, 4, '='), 5);
    assert_eq!(find_from(&hay, 5, '='), 5);
    assert_eq!(find_from(&hay, 0, ' '), 5);
}

#[test]
fn digit_of_reads_decimal_digits_only() {
    assert_eq!(digit_of('0'), Some(0));
    assert_eq!(digit_of('7'), Some(7));
    assert_eq!(digit_of('9'), Some(9));
    assert_eq!(digit_of('a'), None);
    assert_eq!(digit_of('/'), None);
    assert_eq!(digit_of(':'), None);
    assert_eq!(digit_of('\u{663}'), None);
}

#[test]
fn read_number_reads_what_the_standard_parser_reads() {
    let cases = [
        "0", "7", "42", "007", "+5", "+0", "", "+", "-5", "++5", "5+", "1 ", " 1", "1_000", "12a",
        "0x10", "\u{663}", "18446744073709551615", "18446744073709551616",
        "99999999999999999999999999", "4294967295", "4294967296",
    ];
    for case in cases {
        assert_eq!(read_number(&chars(case)), case.parse::<usize>().ok(), "{:?}", case);
    }
}

#[test]
fn read_number_exact_values() {
    assert_eq!(read_number(&chars("42")), Some(42));
    assert_eq!(read_number(&chars("+42")), Some(42));
    assert_eq!(read_number(&chars("0100")), Some(100));
    assert_eq!(read_number(&chars("")), None);
    assert_eq!(read_number(&chars("+")), None);
    assert_eq!(read_number(&chars("4 2")), None);
    assert_eq!(read_number(&chars("99999999999999999999999999")), None);
}

#[test]
fn digit_str_writes_one_digit() {
    let digits = ["0", "1", "2", "3", "4", "5", "6", "7", "8", "9"];
    for (value, digit) in digits.iter().enumerate() {
        assert_eq!(digit_str(value), *digit);
    }
}

#[test]
fn push_decimal_appends_the_digits() {
    let mut out = String::from("page=");
    push_decimal(&mut out, 0);
    assert_eq!(out, "page=0");
    push_decimal(&mut out, 7);
    assert_eq!(out, "page=07");
    push_decimal(&mut out, 10);
    assert_eq!(out, "page=0710");
    push_decimal(&mut out, 1234567890);
    assert_eq!(out, "page=07101234567890");
}

#[test]
fn push_decimal_writes_what_the_standard_formatter_writes() {
    for value in [0usize, 1, 9, 10, 11, 99, 100, 101, 999, 1000, 65535, 4294967295, usize::MAX] {
        let mut out = String::new();
        push_decimal(&mut out, value);
        assert_eq!(out, format!("{}", value));
    }
}

#[test]
fn written_numbers_are_read_back() {
    for value in [0usize, 5, 10, 100, 12345, usize::MAX] {
        let mut out = String::new();
        push_decimal(&mut out, value);
        assert_eq!(read_number(&chars(&out)), Some(value));
    }
}
