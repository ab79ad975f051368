use anchor_litesvm::logs::{
    compute_units_in_line, compute_units_in_logs, parse_u64_bytes, take_before, trim_bytes,
};
use anchor_litesvm::text::{
    contains_bytes, decimal_string, find_bytes, join, lower_hex_string, matches_at,
    starts_with_bytes, str_contains, str_eq,
};
use anchor_litesvm::transaction::{TransactionMetadata, TransactionResult};

fn lines(logs: &[&str]) -> Vec<String> {
    logs.iter().map(|line| line.to_string()).collect()
}

#[test]
fn the_cost_is_the_number_after_consumed() {
    assert_eq!(
        compute_units_in_line("Program abc consumed 12345 of 200000 compute units"),
        Some(12345)
    );
    assert_eq!(compute_units_in_line("consumed 7 of 9 compute units"), Some(7));
    assert_eq!(compute_units_in_line("consumed\t +8  of 9 compute units"), Some(8));
    assert_eq!(compute_units_in_line("consumed 0007of9 compute units"), Some(7));
    assert_eq!(
        compute_units_in_line("consumed 18446744073709551615 of x compute units"),
        Some(u64::MAX)
    );
}

#[test]
fn a_line_of_another_form_reports_nothing() {
    assert_eq!(compute_units_in_line("Program log: hello"), None);
    assert_eq!(compute_units_in_line("Program abc consumed 12345 of 200000"), None);
    assert_eq!(compute_units_in_line("12345 of 200000 compute units"), None);
    assert_eq!(compute_units_in_line("consumed many of 9 compute units"), None);
    assert_eq!(compute_units_in_line("consumed of 9 compute units"), None);
    assert_eq!(compute_units_in_line("consumed -1 of 9 compute units"), None);
    assert_eq!(compute_units_in_line("consumed 1 2 of 9 compute units"), None);
    assert_eq!(compute_units_in_line("consumed + of 9 compute units"), None);
    assert_eq!(
        compute_units_in_line("consumed 18446744073709551616 of x compute units"),
        None
    );
    assert_eq!(compute_units_in_line("compute units consumed"), None);
    assert_eq!(compute_units_in_line(""), None);
}

#[test]
fn what_follows_the_number_first_ends_it() {
    assert_eq!(compute_units_in_line("consumed 5 compute units"), None);
    assert_eq!(compute_units_in_line("consumed 5 consumed 6 of 7 compute units"), Some(5));
    assert_eq!(compute_units_in_line("consumed 5 of compute units consumed 6"), Some(5));
    assert_eq!(compute_units_in_line("consumed 5consumed of compute units"), Some(5));
    assert_eq!(compute_units_in_line("compute units: consumed 42"), Some(42));
}

#[test]
fn the_first_line_that_reports_a_cost_counts() {
    assert_eq!(compute_units_in_logs(&lines(&[])), 0);
    assert_eq!(compute_units_in_logs(&lines(&["Program log: hi"])), 0);
    assert_eq!(
        compute_units_in_logs(&lines(&[
            "Program log: consumed nothing yet, in compute units",
            "Program a consumed 300 of 1000 compute units",
            "Program b consumed 500 of 1000 compute units",
        ])),
        300
    );
    let result = TransactionResult::new(
        TransactionMetadata {
            logs: lines(&["Program a consumed 300 of 1000 compute units"]),
            compute_units_consumed: 299,
        },
        None,
    );
    assert_eq!(result.compute_units_from_logs(), 300);
    assert_eq!(result.compute_units(), 299);
}

#[test]
fn numbers_are_read_as_std_reads_them() {
    for text in ["0", "+0", "42", "+42", "007", "18446744073709551615", "18446744073709551616",
        "", "+", "-1", "4 2", "4a", "+-1", "99999999999999999999999999"]
    {
        assert_eq!(parse_u64_bytes(text.as_bytes()), text.parse::<u64>().ok(), "{:?}", text);
    }
}

#[test]
fn white_space_is_trimmed_as_std_trims_it() {
    let spaces = [
        "\u{9}", "\u{a}", "\u{b}", "\u{c}", "\u{d}", " ", "\u{85}", "\u{a0}", "\u{1680}",
        "\u{2000}", "\u{2005}", "\u{200a}", "\u{2028}", "\u{2029}", "\u{202f}", "\u{205f}",
        "\u{3000}",
    ];
    for space in spaces {
        for text in [
            format!("{}42{}", space, space),
            format!("{}{}4 2", space, space),
            format!("4{}2{}{}", space, space, space),
            format!("{}", space),
            format!("{}{}", space, space),
        ] {
            assert_eq!(trim_bytes(text.as_bytes()), text.trim().as_bytes(), "{:?}", text);
        }
    }
    for text in [
        "\u{200b}42", "42\u{200b}", "\u{2060}7", "\u{feff}7", "\u{180e}7", "\u{8b}7", "7\u{e9}",
        "\u{e9} 7 \u{4e2d}", "\u{2001}\u{3000} \u{a0}x\u{1680}\t\u{85}", "\u{1f600} 1 \u{1f600}",
    ] {
        assert_eq!(trim_bytes(text.as_bytes()), text.trim().as_bytes(), "{:?}", text);
    }
    assert_eq!(compute_units_in_line("consumed\u{a0}9\u{3000}of 10 compute units"), Some(9));
}

#[test]
fn blanks_are_taken_from_both_ends() {
    assert_eq!(trim_bytes(b"  a b \t\n"), b"a b");
    assert_eq!(trim_bytes(b""), b"");
    assert_eq!(trim_bytes(b" \r\n\x0b\x0c "), b"");
    assert_eq!(trim_bytes(b"x"), b"x");
    assert_eq!(take_before(b"abcabc", b"bc"), b"a");
    assert_eq!(take_before(b"abcabc", b"x"), b"abcabc");
    assert_eq!(take_before(b"abc", b""), b"");
}

#[test]
fn bytes_are_found_where_they_first_stand() {
    assert_eq!(find_bytes(b"hello world", b"o"), Some(4));
    assert_eq!(find_bytes(b"hello world", b"world"), Some(6));
    assert_eq!(find_bytes(b"hello", b"hello!"), None);
    assert_eq!(find_bytes(b"hello", b""), Some(0));
    assert_eq!(find_bytes(b"", b""), Some(0));
    assert_eq!(find_bytes(b"aab", b"ab"), Some(1));
    assert!(contains_bytes(b"aab", b"ab"));
    assert!(!contains_bytes(b"aab", b"ba"));
    assert!(matches_at(b"aab", b"ab", 1));
    assert!(!matches_at(b"aab", b"ab", 0));
    assert!(starts_with_bytes(b"Program data: x", b"Program data: "));
    assert!(!starts_with_bytes(b"Program", b"Program data: "));
    assert!(str_contains("na\u{ef}ve caf\u{e9}", "caf\u{e9}"));
    assert!(!str_contains("cafe", "caf\u{e9}"));
    assert!(str_eq("caf\u{e9}", "caf\u{e9}"));
    assert!(!str_eq("cafe", "caf\u{e9}"));
    assert!(!str_eq("a", "ab"));
    assert!(str_eq("", ""));
}

#[test]
fn lines_are_joined_with_the_separator_between_them() {
    assert_eq!(join(&lines(&[]), "\n"), "");
    assert_eq!(join(&lines(&["a"]), "\n"), "a");
    assert_eq!(join(&lines(&["a", "b", ""]), ", "), "a, b, ");
    assert_eq!(join(&lines(&["a", "b"]), ""), "ab");
}

#[test]
fn numbers_are_written_as_std_writes_them() {
    for value in [0u64, 1, 9, 10, 11, 99, 100, 101, 6000, 1_000_000_000, u64::MAX - 1, u64::MAX] {
        assert_eq!(decimal_string(value), format!("{}", value));
    }
    for value in [0u32, 1, 9, 10, 15, 16, 17, 255, 256, 0x1770, 0xdead_beef, u32::MAX] {
        assert_eq!(lower_hex_string(value), format!("{:x}", value));
    }
}
