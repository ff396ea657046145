use arrowhead_adapter::text::{parse_u32, u32_to_string, u64_to_string, usize_to_string, NumberError};

#[test]
fn zero_prints_as_one_digit() {
    assert_eq!(u64_to_string(0), "0");
}

#[test]
fn single_digits_print_directly() {
    assert_eq!(u64_to_string(7), "7");
}

#[test]
fn multi_digit_numbers_print_most_significant_first() {
    assert_eq!(u64_to_string(10), "10");
    assert_eq!(u64_to_string(1234567890), "1234567890");
}

#[test]
fn largest_u32_prints_fully() {
    assert_eq!(u32_to_string(u32::MAX), "4294967295");
}

#[test]
fn usize_prints_like_u64() {
    assert_eq!(usize_to_string(25), "25");
}

#[test]
fn parse_reads_plain_decimals() {
    assert_eq!(parse_u32("0"), Ok(0));
    assert_eq!(parse_u32("42"), Ok(42));
    assert_eq!(parse_u32("4294967295"), Ok(u32::MAX));
}

#[test]
fn parse_accepts_a_leading_plus() {
    assert_eq!(parse_u32("+42"), Ok(42));
}

#[test]
fn parse_rejects_empty_text() {
    assert_eq!(parse_u32(""), Err(NumberError::Empty));
}

#[test]
fn parse_rejects_a_bare_sign() {
    assert_eq!(parse_u32("+"), Err(NumberError::InvalidDigit));
}

#[test]
fn parse_rejects_negative_numbers() {
    assert_eq!(parse_u32("-1"), Err(NumberError::InvalidDigit));
}

#[test]
fn parse_rejects_stray_characters() {
    assert_eq!(parse_u32("12a"), Err(NumberError::InvalidDigit));
    assert_eq!(parse_u32(" 3"), Err(NumberError::InvalidDigit));
}

#[test]
fn parse_rejects_values_above_u32() {
    assert_eq!(parse_u32("4294967296"), Err(NumberError::TooLarge));
    assert_eq!(parse_u32("99999999999999999999"), Err(NumberError::TooLarge));
}

#[test]
fn overflow_is_noticed_before_a_later_bad_digit() {
    assert_eq!(parse_u32("99999999999x"), Err(NumberError::TooLarge));
}

#[test]
fn number_error_messages() {
    assert_eq!(
        NumberError::Empty.message(),
        "cannot parse integer from empty string"
    );
    assert_eq!(
        NumberError::InvalidDigit.message(),
        "invalid digit found in string"
    );
    assert_eq!(
        NumberError::TooLarge.message(),
        "number too large to fit in target type"
    );
}
