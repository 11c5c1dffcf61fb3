use nft_indexer::address::standardize_address;
use nft_indexer::config::get_server_name;

fn padded(digits: &str) -> String {
    let mut s = String::from("0x");
    for _ in 0..(64 - digits.len()) {
        s.push('0');
    }
    s.push_str(digits);
    s
}

#[test]
fn short_address_is_left_padded() {
    assert_eq!(standardize_address("0x1"), padded("1"));
}

#[test]
fn address_without_prefix_gets_one() {
    assert_eq!(standardize_address("abc"), padded("abc"));
}

#[test]
fn upper_case_hex_is_lowered() {
    assert_eq!(standardize_address("0xABCDEF"), padded("abcdef"));
}

#[test]
fn full_length_address_is_kept() {
    let digits = "123456789abcdef0123456789abcdef0123456789abcdef0123456789abcdef0";
    // 65 digits: longer than the canonical width, kept whole.
    let mut expected = String::from("0x");
    expected.push_str(digits);
    let mut input = String::from("0x");
    input.push_str(digits);
    assert_eq!(standardize_address(&input), expected);
}

#[test]
fn empty_address_becomes_all_zeros() {
    assert_eq!(standardize_address(""), padded(""));
}

#[test]
fn standardizing_twice_is_stable() {
    let once = standardize_address("0xAB");
    let twice = standardize_address(&once);
    assert_eq!(once, twice);
}

#[test]
fn server_name_is_first_segment_trimmed() {
    assert_eq!(get_server_name("marketplace_indexer"), "marketplace");
    assert_eq!(get_server_name("contractupgradeindexer_x"), "contractupgr");
    assert_eq!(get_server_name("short"), "short");
    assert_eq!(get_server_name("_leading"), "");
}
