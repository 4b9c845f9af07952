use capi_wasm::decimal::Decimal;
use capi_wasm::dependencies::{FundsAssetId, FundsAssetSpecs};
use capi_wasm::inputs_validation::ValidationError;
use capi_wasm::js::create_dao::{
    generate_asset_name, validate_address, validate_dao_description,
    validate_dao_inputs, validate_dao_name, validate_funds_amount_input, validate_investors_part,
    validate_investors_share, validate_logo_url, validate_share_price, validate_share_supply,
    validate_social_media_url, validate_text_min_max_length, CreateDaoFormInputsJs, FundsAmount,
    ShareAmount, SharesPercentage, ValidateDaoInputsError,
};

const ZERO_ADDRESS: &str = "AAAAAAAAAAAAAAAAAAAAAAAAAAAAAAAAAAAAAAAAAAAAAAAAAAAAY5HFKQ";

fn specs() -> FundsAssetSpecs {
    FundsAssetSpecs { id: FundsAssetId(123), decimals: 6 }
}

fn min_length(min: &str, actual: &str) -> ValidationError {
    ValidationError::MinLength { min: min.to_owned(), actual: actual.to_owned() }
}

fn max_length(max: &str, actual: &str) -> ValidationError {
    ValidationError::MaxLength { max: max.to_owned(), actual: actual.to_owned() }
}

fn valid_inputs() -> CreateDaoFormInputsJs {
    CreateDaoFormInputsJs {
        creator: ZERO_ADDRESS.to_owned(),
        dao_name: "  My Great DAO ".to_owned(),
        dao_description: "A description".to_owned(),
        share_count: "1000".to_owned(),
        share_price: "2.5".to_owned(),
        investors_share: "40".to_owned(),
        logo_url: "https://logo".to_owned(),
        social_media_url: "https://social".to_owned(),
    }
}

#[test]
fn text_lengths_are_checked_after_trimming() {
    assert_eq!(validate_text_min_max_length("  abc  ", 2, 5), Ok("abc".to_owned()));
    assert_eq!(validate_text_min_max_length(" a ", 2, 5), Err(min_length("2", "1")));
    assert_eq!(validate_text_min_max_length("abcdef", 2, 5), Err(max_length("5", "6")));
    // lengths are in bytes
    assert_eq!(validate_text_min_max_length("€€", 2, 5), Err(max_length("5", "6")));
}

#[test]
fn dao_name_and_description_bounds() {
    assert_eq!(validate_dao_name("  My DAO "), Ok("My DAO".to_owned()));
    assert_eq!(validate_dao_name("a"), Err(min_length("2", "1")));
    assert_eq!(validate_dao_name(&"x".repeat(41)), Err(max_length("40", "41")));
    assert_eq!(validate_dao_name(&"x".repeat(40)), Ok("x".repeat(40)));
    assert_eq!(validate_dao_description(""), Ok("".to_owned()));
    assert_eq!(validate_dao_description(&"d".repeat(201)), Err(max_length("200", "201")));
}

#[test]
fn creator_must_be_an_address() {
    assert!(validate_address(ZERO_ADDRESS).is_ok());
    assert_eq!(validate_address("not an address"), Err(ValidationError::Address));
}

#[test]
fn share_supply_is_a_positive_integer() {
    assert_eq!(validate_share_supply("1000"), Ok(ShareAmount(1000)));
    assert_eq!(validate_share_supply("abc"), Err(ValidationError::NotAnInteger));
    assert_eq!(validate_share_supply("-3"), Err(ValidationError::NotAnInteger));
    assert_eq!(
        validate_share_supply("0"),
        Err(ValidationError::Min { min: "1".to_owned(), actual: "0".to_owned() })
    );
}

#[test]
fn funds_amounts_are_converted_to_base_units() {
    assert_eq!(validate_funds_amount_input("1.5", &specs()), Ok(FundsAmount(1_500_000)));
    assert_eq!(validate_funds_amount_input("0.000001", &specs()), Ok(FundsAmount(1)));
    assert_eq!(validate_funds_amount_input("0", &specs()), Ok(FundsAmount(0)));
    assert_eq!(validate_share_price("2.5", &specs()), Ok(FundsAmount(2_500_000)));
}

#[test]
fn funds_amount_errors() {
    assert_eq!(validate_funds_amount_input("abc", &specs()), Err(ValidationError::NotADecimal));
    assert_eq!(validate_funds_amount_input("-1", &specs()), Err(ValidationError::NotPositive));
    assert_eq!(
        validate_funds_amount_input("1.1234567", &specs()),
        Err(ValidationError::TooManyFractionalDigits {
            max: "6".to_owned(),
            actual: "7".to_owned()
        })
    );
    assert_eq!(
        validate_funds_amount_input("18446744073710", &specs()),
        Err(ValidationError::Unexpected(
            "Couldn't convert 18446744073710 to base units".to_owned()
        ))
    );
}

#[test]
fn investors_share_is_a_percentage() {
    assert_eq!(
        validate_investors_share("40"),
        Ok(SharesPercentage { percent: Decimal { mantissa: 40, negative: false, scale: 0 } })
    );
    assert_eq!(validate_investors_share("x"), Err(ValidationError::NotADecimal));
    assert_eq!(
        validate_investors_share("101"),
        Err(ValidationError::Max { max: "100".to_owned(), actual: "101".to_owned() })
    );
    assert_eq!(
        validate_investors_share("-1"),
        Err(ValidationError::Min { min: "0".to_owned(), actual: "-1".to_owned() })
    );
    assert!(validate_investors_share("100").is_ok());
    assert!(validate_investors_share("0").is_ok());
}

#[test]
fn investors_part_is_the_percentage_of_the_supply_rounded_down() {
    let forty = SharesPercentage { percent: Decimal { mantissa: 40, negative: false, scale: 0 } };
    assert_eq!(validate_investors_part(&forty, ShareAmount(1000)), Ok(ShareAmount(400)));
    let third = SharesPercentage { percent: Decimal { mantissa: 33333, negative: false, scale: 3 } };
    assert_eq!(validate_investors_part(&third, ShareAmount(100)), Ok(ShareAmount(33)));
    let all = SharesPercentage { percent: Decimal { mantissa: 100, negative: false, scale: 0 } };
    assert_eq!(validate_investors_part(&all, ShareAmount(u64::MAX)), Ok(ShareAmount(u64::MAX)));
}

#[test]
fn investors_part_that_cannot_be_computed() {
    let big = SharesPercentage {
        percent: Decimal { mantissa: 1_000_000_000_000_000_000_000_000, negative: false, scale: 22 },
    };
    assert_eq!(
        validate_investors_part(&big, ShareAmount(u64::MAX)),
        Err(format!(
            "Error calculating investors part, based on: 100.0000000000000000000000 and: {}",
            u64::MAX
        ))
    );
}

#[test]
fn urls_have_at_most_100_bytes() {
    assert_eq!(validate_logo_url(&"u".repeat(100)), Ok("u".repeat(100)));
    assert_eq!(validate_logo_url(&"u".repeat(101)), Err(max_length("100", "101")));
    assert_eq!(validate_social_media_url(&"s".repeat(101)), Err(max_length("100", "101")));
}

#[test]
fn asset_name_is_cut_after_seven_bytes() {
    assert_eq!(generate_asset_name("MyLongDaoName"), Ok("MyLongD".to_owned()));
    assert_eq!(generate_asset_name("Short"), Ok("Short".to_owned()));
    assert_eq!(generate_asset_name("Seven77"), Ok("Seven77".to_owned()));
}

#[test]
fn validates_a_whole_dao_form() {
    let v = validate_dao_inputs(&valid_inputs(), &specs()).unwrap();
    assert_eq!(v.name, "My Great DAO");
    assert_eq!(v.description, "A description");
    assert_eq!(v.token_name, "My Grea");
    assert_eq!(v.share_supply, ShareAmount(1000));
    assert_eq!(v.share_price, FundsAmount(2_500_000));
    assert_eq!(v.investors_part, ShareAmount(400));
    assert_eq!(v.logo_url, "https://logo");
    assert_eq!(v.social_media_url, "https://social");
    assert_eq!(v.creator.bytes, [0u8; 32]);
    // the validated name passes the validation again unchanged
    assert_eq!(validate_dao_name(&v.name), Ok(v.name.clone()));
    assert!(v.investors_part.0 <= v.share_supply.0);
}

#[test]
fn reports_the_errors_of_all_fields_together() {
    let mut inputs = valid_inputs();
    inputs.dao_name = "x".to_owned();
    inputs.share_count = "0".to_owned();
    inputs.investors_share = "200".to_owned();
    match validate_dao_inputs(&inputs, &specs()) {
        Err(ValidateDaoInputsError::AllFieldsValidation(errors)) => {
            assert_eq!(errors.name, Some(min_length("2", "1")));
            assert_eq!(errors.description, None);
            assert_eq!(errors.creator, None);
            assert_eq!(
                errors.share_supply,
                Some(ValidationError::Min { min: "1".to_owned(), actual: "0".to_owned() })
            );
            assert_eq!(errors.share_price, None);
            assert_eq!(
                errors.investors_share,
                Some(ValidationError::Max { max: "100".to_owned(), actual: "200".to_owned() })
            );
            assert_eq!(errors.logo_url, None);
            assert_eq!(errors.social_media_url, None);
        }
        other => panic!("unexpected result: {:?}", other),
    }
}

#[test]
fn a_name_that_cannot_be_cut_is_reported_instead_of_panicking() {
    assert_eq!(
        generate_asset_name("ééééé"),
        Err("Error generating asset name, based on: ééééé".to_owned())
    );
    let mut inputs = valid_inputs();
    // 6 ASCII bytes and a 3-byte character: byte 7 falls inside it
    inputs.dao_name = "abcdef€".to_owned();
    assert_eq!(
        validate_dao_inputs(&inputs, &specs()),
        Err(ValidateDaoInputsError::NonValidation(
            "Error generating asset name, based on: abcdef€".to_owned()
        ))
    );
    inputs.dao_name = "abcdefg€".to_owned();
    let r = validate_dao_inputs(&inputs, &specs()).unwrap();
    assert_eq!(r.token_name, "abcdefg");
    // with another invalid field the field errors come first
    let mut invalid = valid_inputs();
    invalid.dao_name = "abcdef€".to_owned();
    invalid.creator = "nope".to_owned();
    assert!(matches!(
        validate_dao_inputs(&invalid, &specs()),
        Err(ValidateDaoInputsError::AllFieldsValidation(_))
    ));
}
