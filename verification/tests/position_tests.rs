use termnote::position::{decimal, parse_index};
use termnote::CatalogError;

#[test]
fn digits_are_read_as_a_position() {
    assert_eq!(parse_index("0"), Ok(0));
    assert_eq!(parse_index("7"), Ok(7));
    assert_eq!(parse_index("42"), Ok(42));
    assert_eq!(parse_index("1234567890"), Ok(1234567890));
}

#[test]
fn leading_zeros_and_a_plus_sign_are_accepted() {
    assert_eq!(parse_index("007"), Ok(7));
    assert_eq!(parse_index("+5"), Ok(5));
    assert_eq!(parse_index("+0"), Ok(0));
}

#[test]
fn text_that_is_no_number_is_an_invalid_index() {
    assert_eq!(parse_index(""), Err(CatalogError::InvalidIndex));
    assert_eq!(parse_index("+"), Err(CatalogError::InvalidIndex));
    assert_eq!(parse_index("abc"), Err(CatalogError::InvalidIndex));
    assert_eq!(parse_index("12a"), Err(CatalogError::InvalidIndex));
    assert_eq!(parse_index("1 2"), Err(CatalogError::InvalidIndex));
    assert_eq!(parse_index(" 1"), Err(CatalogError::InvalidIndex));
    assert_eq!(parse_index("1+"), Err(CatalogError::InvalidIndex));
    assert_eq!(parse_index("++1"), Err(CatalogError::InvalidIndex));
    assert_eq!(parse_index("1.5"), Err(CatalogError::InvalidIndex));
    assert_eq!(parse_index("١٢"), Err(CatalogError::InvalidIndex));
}

#[test]
fn a_negative_number_is_an_invalid_index() {
    assert_eq!(parse_index("-1"), Err(CatalogError::InvalidIndex));
    assert_eq!(parse_index("-0"), Err(CatalogError::InvalidIndex));
}

#[test]
fn the_largest_position_is_read_and_the_next_is_not() {
    let largest = usize::MAX.to_string();
    assert_eq!(parse_index(&largest), Ok(usize::MAX));
    let mut beyond = largest.clone();
    beyond.push('0');
    assert_eq!(parse_index(&beyond), Err(CatalogError::InvalidIndex));
    assert_eq!(parse_index("99999999999999999999999999"), Err(CatalogError::InvalidIndex));
}

#[test]
fn reading_agrees_with_the_standard_parser() {
    let samples = ["0", "10", "+3", "-3", "", "x", "00", "18446744073709551615", "18446744073709551616", "4294967296"];
    for sample in samples {
        assert_eq!(parse_index(sample).ok(), sample.parse::<usize>().ok());
    }
}

#[test]
fn positions_are_written_in_decimal() {
    assert_eq!(decimal(0), "0");
    assert_eq!(decimal(9), "9");
    assert_eq!(decimal(10), "10");
    assert_eq!(decimal(405), "405");
    assert_eq!(decimal(usize::MAX), usize::MAX.to_string());
}

#[test]
fn what_is_written_is_read_back() {
    for n in [0, 1, 9, 10, 99, 100, 12345, usize::MAX] {
        assert_eq!(parse_index(&decimal(n)), Ok(n));
    }
}
