use nipe::text::{decimal_string, join_strings, parse_trimmed_u32};

#[test]
fn decimal_of_zero_is_one_digit() {
    assert_eq!(decimal_string(0), "0");
}

#[test]
fn decimal_of_ports() {
    assert_eq!(decimal_string(9050), "9050");
    assert_eq!(decimal_string(65535), "65535");
    assert_eq!(decimal_string(u64::MAX), "18446744073709551615");
}

#[test]
fn join_puts_the_separator_between_neighbours() {
    let parts = vec!["us".to_string(), "de".to_string(), "nl".to_string()];
    assert_eq!(join_strings(&parts, ","), "us,de,nl");
    assert_eq!(join_strings(&vec!["us".to_string()], ","), "us");
    assert_eq!(join_strings(&Vec::new(), ","), "");
}

#[test]
fn numbers_are_read_as_the_standard_parser_reads_them() {
    for text in ["0", "7", "+7", "007", "4294967295", "4294967296", "", "+", "-1", "1a", " 1", "１"] {
        assert_eq!(parse_trimmed_u32(text), text.trim().parse::<u32>().ok(), "{:?}", text);
    }
    assert_eq!(parse_trimmed_u32("110\n"), Some(110));
    assert_eq!(parse_trimmed_u32("\u{a0}12\u{3000}"), Some(12));
    assert_eq!(parse_trimmed_u32("99999999999"), None);
}
