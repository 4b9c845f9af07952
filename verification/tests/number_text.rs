use capi_wasm::number_text::{
    i32_to_string, i64_to_string, int_error_message, parse_u64, u32_to_string, u64_to_string,
    usize_to_string, IntErrorKind,
};

#[test]
fn writes_unsigned_numbers_in_decimal() {
    assert_eq!(u64_to_string(0), "0");
    assert_eq!(u64_to_string(7), "7");
    assert_eq!(u64_to_string(12345), "12345");
    assert_eq!(u64_to_string(u64::MAX), u64::MAX.to_string());
    assert_eq!(usize_to_string(40), "40");
    assert_eq!(u32_to_string(u32::MAX), "4294967295");
}

#[test]
fn writes_signed_numbers_in_decimal() {
    assert_eq!(i64_to_string(-42), "-42");
    assert_eq!(i64_to_string(0), "0");
    assert_eq!(i64_to_string(i64::MIN), i64::MIN.to_string());
    assert_eq!(i64_to_string(i64::MAX), i64::MAX.to_string());
    assert_eq!(i32_to_string(-2022), "-2022");
}

#[test]
fn parses_unsigned_numbers_as_std_does() {
    assert_eq!(parse_u64("123"), Ok(123));
    assert_eq!(parse_u64("+5"), "+5".parse::<u64>().map_err(|_| IntErrorKind::InvalidDigit));
    assert_eq!(parse_u64(""), Err(IntErrorKind::Empty));
    assert_eq!(parse_u64("12a"), Err(IntErrorKind::InvalidDigit));
    assert_eq!(parse_u64("-1"), Err(IntErrorKind::InvalidDigit));
    assert_eq!(parse_u64(" 1"), Err(IntErrorKind::InvalidDigit));
    assert_eq!(parse_u64("18446744073709551615"), Ok(u64::MAX));
    assert_eq!(parse_u64("18446744073709551616"), Err(IntErrorKind::PosOverflow));
}

#[test]
fn int_error_messages_are_those_of_std() {
    assert_eq!(
        int_error_message(IntErrorKind::Empty),
        "".parse::<u64>().unwrap_err().to_string()
    );
    assert_eq!(
        int_error_message(IntErrorKind::InvalidDigit),
        "x".parse::<u64>().unwrap_err().to_string()
    );
    assert_eq!(
        int_error_message(IntErrorKind::PosOverflow),
        "99999999999999999999".parse::<u64>().unwrap_err().to_string()
    );
}

#[test]
fn reading_back_the_text_of_a_number_gives_the_number() {
    for n in [0u64, 1, 9, 10, 99, 100, 4294967296, u64::MAX - 1, u64::MAX] {
        assert_eq!(parse_u64(&u64_to_string(n)), Ok(n));
    }
}
