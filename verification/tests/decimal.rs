use paste_service::decimal::{parse_i64, parse_seconds, write_i64};

fn read(s: &str) -> Option<i64> {
    parse_i64(s)
}

#[test]
fn numerals_are_written_without_leading_zeros() {
    assert_eq!(write_i64(0), "0");
    assert_eq!(write_i64(7), "7");
    assert_eq!(write_i64(10), "10");
    assert_eq!(write_i64(1700000000), "1700000000");
    assert_eq!(write_i64(-1), "-1");
    assert_eq!(write_i64(-120), "-120");
}

#[test]
fn numerals_of_the_extremes() {
    assert_eq!(write_i64(i64::MAX), "9223372036854775807");
    assert_eq!(write_i64(i64::MIN), "-9223372036854775808");
    assert_eq!(read("9223372036854775807"), Some(i64::MAX));
    assert_eq!(read("-9223372036854775808"), Some(i64::MIN));
    assert_eq!(read("9223372036854775808"), None);
    assert_eq!(read("-9223372036854775809"), None);
    assert_eq!(read("18446744073709551616"), None);
    assert_eq!(read("99999999999999999999999"), None);
}

#[test]
fn numerals_are_read_back() {
    for n in [0i64, 1, 9, 10, 99, 100, 12345, -1, -10, -12345, 1700000000, i64::MAX, i64::MIN] {
        assert_eq!(read(&write_i64(n)), Some(n));
    }
}

#[test]
fn only_numerals_as_written_are_read() {
    assert_eq!(read("42"), Some(42));
    assert_eq!(read("-42"), Some(-42));
    assert_eq!(read("0"), Some(0));
    assert_eq!(read(""), None);
    assert_eq!(read("-"), None);
    assert_eq!(read("-0"), None);
    assert_eq!(read("007"), None);
    assert_eq!(read("00"), None);
    assert_eq!(read("+7"), None);
    assert_eq!(read("4 2"), None);
    assert_eq!(read("42 "), None);
    assert_eq!(read("4.2"), None);
    assert_eq!(read("1e3"), None);
    assert_eq!(read("٣"), None);
}

#[test]
fn counts_of_seconds() {
    assert_eq!(parse_seconds("60"), Some(60));
    assert_eq!(parse_seconds("0"), Some(0));
    assert_eq!(parse_seconds("+60"), Some(60));
    assert_eq!(parse_seconds("007"), Some(7));
    assert_eq!(parse_seconds("9223372036854775807"), Some(i64::MAX));
    assert_eq!(parse_seconds("9223372036854775808"), None);
    assert_eq!(parse_seconds(""), None);
    assert_eq!(parse_seconds("+"), None);
    assert_eq!(parse_seconds("-1"), None);
    assert_eq!(parse_seconds("-0"), None);
    assert_eq!(parse_seconds("1h"), None);
    assert_eq!(parse_seconds(" 60"), None);
    assert_eq!(parse_seconds("6.5"), None);
}
