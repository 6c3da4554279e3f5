use builder_core::ids::{id_to_hex, parse_id};

#[test]
fn round_trip_from_canonical_text() {
    let id = parse_id("0123456789abcdef01234567").unwrap();
    let text = id_to_hex(&id);
    assert_eq!(text, "0123456789abcdef01234567");
    assert_eq!(parse_id(&text).unwrap(), id);
}

#[test]
fn uppercase_digits_are_accepted_and_canonicalized() {
    let upper = parse_id("0123456789ABCDEF01234567").unwrap();
    let lower = parse_id("0123456789abcdef01234567").unwrap();
    assert_eq!(upper, lower);
    assert_eq!(id_to_hex(&upper), "0123456789abcdef01234567");
}

#[test]
fn all_extreme_digit_values_round_trip() {
    let zeros = parse_id("000000000000000000000000").unwrap();
    assert_eq!(id_to_hex(&zeros), "000000000000000000000000");
    let ones = parse_id("ffffffffffffffffffffffff").unwrap();
    assert_eq!(id_to_hex(&ones), "ffffffffffffffffffffffff");
}

#[test]
fn wrong_length_is_rejected() {
    assert!(parse_id("").is_none());
    assert!(parse_id("0123456789abcdef0123456").is_none());
    assert!(parse_id("0123456789abcdef012345678").is_none());
}

#[test]
fn non_hex_characters_are_rejected() {
    assert!(parse_id("0123456789abcdef0123456g").is_none());
    assert!(parse_id("0123456789abcdef 1234567").is_none());
    assert!(parse_id("0123456789abcdef01234-67").is_none());
    assert!(parse_id("\u{e9}123456789abcdef0123456").is_none());
}
