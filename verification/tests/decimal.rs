use docomo_sharecycle::decimal::{decimal_string, parse_count};

#[test]
fn a_digit_run_is_read_as_its_value() {
    assert_eq!(parse_count("0"), Some(0));
    assert_eq!(parse_count("5"), Some(5));
    assert_eq!(parse_count("15"), Some(15));
    assert_eq!(parse_count("007"), Some(7));
    assert_eq!(parse_count("4294967295"), Some(4294967295));
}

#[test]
fn the_largest_word_is_read_and_the_next_number_is_not() {
    let largest = usize::MAX.to_string();
    assert_eq!(parse_count(&largest), Some(usize::MAX));
    let mut digits: Vec<u8> = largest.into_bytes();
    let last = digits.len() - 1;
    digits[last] += 1;
    assert_eq!(parse_count(std::str::from_utf8(&digits).unwrap()), None);
    assert_eq!(parse_count("340282366920938463463374607431768211456"), None);
}

#[test]
fn what_is_no_digit_run_is_not_read() {
    assert_eq!(parse_count(""), None);
    assert_eq!(parse_count("+5"), None);
    assert_eq!(parse_count("-5"), None);
    assert_eq!(parse_count(" 5"), None);
    assert_eq!(parse_count("5 "), None);
    assert_eq!(parse_count("1a"), None);
    assert_eq!(parse_count("台"), None);
    assert_eq!(parse_count("１２"), None);
}

#[test]
fn a_number_is_written_without_leading_zeros() {
    assert_eq!(decimal_string(0), "0");
    assert_eq!(decimal_string(7), "7");
    assert_eq!(decimal_string(10), "10");
    assert_eq!(decimal_string(200), "200");
    assert_eq!(decimal_string(1234567890), "1234567890");
    assert_eq!(decimal_string(usize::MAX), usize::MAX.to_string());
}

#[test]
fn reading_what_was_written_gives_the_number_back() {
    for n in [0usize, 1, 9, 10, 99, 100, 101, 65535, 1000000, usize::MAX] {
        assert_eq!(parse_count(&decimal_string(n)), Some(n));
    }
}
