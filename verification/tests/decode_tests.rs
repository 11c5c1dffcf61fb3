use nft_indexer::decode::parse_i64;

#[test]
fn parses_zero_and_plain_numbers() {
    assert_eq!(parse_i64("0"), Some(0));
    assert_eq!(parse_i64("123"), Some(123));
    assert_eq!(parse_i64("005"), Some(5));
}

#[test]
fn parses_the_largest_value() {
    assert_eq!(parse_i64("9223372036854775807"), Some(i64::MAX));
}

#[test]
fn rejects_overflow() {
    assert_eq!(parse_i64("9223372036854775808"), None);
    assert_eq!(parse_i64("99999999999999999999"), None);
}

#[test]
fn rejects_empty_and_non_digits() {
    assert_eq!(parse_i64(""), None);
    assert_eq!(parse_i64("12a"), None);
    assert_eq!(parse_i64("-5"), None);
    assert_eq!(parse_i64(" 5"), None);
}
