use beam::text::{
    contains, decimal_u128, decimal_u32, decimal_u64, digit_runs, ends_with, find, first_word,
    is_whitespace, leading_digits, lines, parse_i32, parse_u32, split, starts_with, strip_prefix,
    text_eq, trim, trim_end_matches, trim_matches, trim_start_matches, words,
};

#[test]
fn white_space_is_that_of_unicode() {
    for n in 0..=0x10ffffu32 {
        if let Some(c) = char::from_u32(n) {
            assert_eq!(is_whitespace(c), c.is_whitespace(), "{n:x}");
        }
    }
}

const SAMPLES: [&str; 14] = [
    "",
    "a",
    " a ",
    "\r\n",
    "a\r\nb\n\nc\r",
    "\n",
    "x.y.z",
    ".",
    "  two words\u{3000}three ",
    "''q''",
    "((x))",
    "éa€b",
    "12ab034",
    "\u{a0}\t",
];

#[test]
fn pieces_are_those_of_std() {
    for s in SAMPLES {
        assert_eq!(trim(s), s.trim());
        assert_eq!(trim_matches(s, '\''), s.trim_matches('\''));
        assert_eq!(trim_start_matches(s, '('), s.trim_start_matches('('));
        assert_eq!(trim_end_matches(s, ')'), s.trim_end_matches(')'));
        assert_eq!(lines(s), s.lines().collect::<Vec<_>>());
        assert_eq!(split(s, '.'), s.split('.').collect::<Vec<_>>());
        assert_eq!(words(s), s.split_whitespace().collect::<Vec<_>>());
        assert_eq!(first_word(s), s.split_whitespace().next());
        let runs: Vec<&str> =
            s.split(|c: char| !c.is_ascii_digit()).filter(|t| !t.is_empty()).collect();
        assert_eq!(digit_runs(s), runs);
        let digits: String = s.chars().take_while(|c| c.is_ascii_digit()).collect();
        assert_eq!(leading_digits(s), digits);
        for p in SAMPLES {
            assert_eq!(text_eq(s, p), s == p);
            assert_eq!(starts_with(s, p), s.starts_with(p));
            assert_eq!(ends_with(s, p), s.ends_with(p));
            assert_eq!(contains(s, p), s.contains(p));
            assert_eq!(strip_prefix(s, p), s.strip_prefix(p));
            let at = s.find(p).map(|i| s[..i].chars().count());
            assert_eq!(find(s, p), at);
        }
    }
}

#[test]
fn numbers_are_those_of_std() {
    for s in [
        "", "+", "-", "0", "+0", "-0", "007", "+7", "-7", "+-7", "4294967295", "4294967296",
        "2147483647", "2147483648", "-2147483648", "-2147483649", "99999999999999999999999", "1 ",
        " 1", "1.0", "٣",
    ] {
        assert_eq!(parse_u32(s), s.parse::<u32>().ok(), "{s}");
        assert_eq!(parse_i32(s), s.parse::<i32>().ok(), "{s}");
    }
    for n in [0u128, 9, 10, 99, 100, 4294967295, 18446744073709551615, u128::MAX] {
        assert_eq!(decimal_u128(n), n.to_string());
        assert_eq!(decimal_u64(n as u64), (n as u64).to_string());
        assert_eq!(decimal_u32(n as u32), (n as u32).to_string());
        assert_eq!(parse_u32(&decimal_u32(n as u32)), Some(n as u32));
    }
}
