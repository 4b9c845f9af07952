use capi_wasm::inputs_validation::ValidationError;
use capi_wasm::js::create_assets::to_create_assets_input_errors_js;
use capi_wasm::js::create_dao::CreateAssetsInputErrors;
use capi_wasm::js::inputs_validation_js::{
    to_validation_error_js, TooManyFractionalDigitsJs, ValidationErrorMaxBuySharesJs,
    ValidationErrorMaxLengthJs, ValidationErrorMinJs, ValidationErrorMinLengthJs,
};

fn s(x: &str) -> String {
    x.to_owned()
}

#[test]
fn errors_without_details_only_have_a_type() {
    let cases = [
        (ValidationError::Empty, "empty"),
        (ValidationError::Address, "address"),
        (ValidationError::NotAnInteger, "not_int"),
        (ValidationError::NotPositive, "not_pos"),
        (ValidationError::NotADecimal, "not_dec"),
        (ValidationError::NotTimestamp, "not_timestamp"),
        (ValidationError::ShareCountLargerThanAvailable, "count_le_supply"),
        (ValidationError::MustBeLessThanMaxInvestAmount, "must_be_less_max_invest"),
        (ValidationError::MustBeGreaterThanMinInvestAmount, "must_be_more_min_min_invest"),
        (ValidationError::SharesForInvestorsGreaterThanSupply, "shares_for_investors_greater_than_supply"),
        (ValidationError::MustBeAfterNow, "mus_be_after_now"),
    ];
    for (error, type_) in cases {
        let js = to_validation_error_js(error);
        assert_eq!(js.type_, type_);
        assert_eq!(js.min_length, None);
        assert_eq!(js.max_length, None);
        assert_eq!(js.min, None);
        assert_eq!(js.max, None);
        assert_eq!(js.max_share_buy, None);
        assert_eq!(js.max_fractionals, None);
        assert_eq!(js.unexpected, None);
    }
}

#[test]
fn errors_with_details_carry_them() {
    let js = to_validation_error_js(ValidationError::MinLength { min: s("2"), actual: s("1") });
    assert_eq!(js.type_, "min_length");
    assert_eq!(js.min_length, Some(ValidationErrorMinLengthJs { min: s("2"), actual: s("1") }));
    assert_eq!(js.max_length, None);

    let js = to_validation_error_js(ValidationError::MaxLength { max: s("40"), actual: s("41") });
    assert_eq!(js.type_, "max_length");
    assert_eq!(js.max_length, Some(ValidationErrorMaxLengthJs { max: s("40"), actual: s("41") }));

    let js = to_validation_error_js(ValidationError::Min { min: s("1"), actual: s("0") });
    assert_eq!(js.type_, "min");
    assert_eq!(js.min, Some(ValidationErrorMinJs { min: s("1") }));

    let js = to_validation_error_js(ValidationError::BuyingLessSharesThanMinAmount { min: s("5") });
    assert_eq!(js.type_, "buying_less_shares_than_min");
    assert_eq!(js.min, Some(ValidationErrorMinJs { min: s("5") }));

    let js = to_validation_error_js(ValidationError::BuyingMoreSharesThanMaxTotalAmount {
        max: s("10"),
        currently_owned: s("3"),
    });
    assert_eq!(js.type_, "buying_more_shares_than_max");
    assert_eq!(
        js.max_share_buy,
        Some(ValidationErrorMaxBuySharesJs { max: s("10"), currently_owned: s("3") })
    );

    let js = to_validation_error_js(ValidationError::TooManyFractionalDigits {
        max: s("6"),
        actual: s("7"),
    });
    assert_eq!(js.type_, "max_fractionals");
    assert_eq!(js.max_fractionals, Some(TooManyFractionalDigitsJs { max: s("6"), actual: s("7") }));

    let js = to_validation_error_js(ValidationError::Unexpected(s("boom")));
    assert_eq!(js.type_, "unexpected");
    assert_eq!(js.unexpected, Some(s("boom")));
}

#[test]
fn field_errors_for_the_frontend() {
    let errors = CreateAssetsInputErrors {
        name: Some(ValidationError::Empty),
        description: None,
        creator: Some(ValidationError::Address),
        share_supply: None,
        share_price: None,
        investors_share: None,
        logo_url: None,
        social_media_url: Some(ValidationError::NotADecimal),
    };
    let js = to_create_assets_input_errors_js(errors);
    assert_eq!(js.type_identifier, "input_errors");
    assert_eq!(js.name.map(|e| e.type_), Some(s("empty")));
    assert_eq!(js.description, None);
    assert_eq!(js.creator.map(|e| e.type_), Some(s("address")));
    assert_eq!(js.social_media_url.map(|e| e.type_), Some(s("not_dec")));
}

#[test]
fn every_kind_of_error_has_its_own_type_tag() {
    let errors = vec![
        ValidationError::Empty,
        ValidationError::MinLength { min: s("1"), actual: s("0") },
        ValidationError::MaxLength { max: s("1"), actual: s("2") },
        ValidationError::Min { min: s("1"), actual: s("0") },
        ValidationError::Max { max: s("1"), actual: s("2") },
        ValidationError::Address,
        ValidationError::NotAnInteger,
        ValidationError::NotPositive,
        ValidationError::NotADecimal,
        ValidationError::NotTimestamp,
        ValidationError::TooManyFractionalDigits { max: s("6"), actual: s("7") },
        ValidationError::ShareCountLargerThanAvailable,
        ValidationError::Unexpected(s("x")),
        ValidationError::MustBeLessThanMaxInvestAmount,
        ValidationError::MustBeGreaterThanMinInvestAmount,
        ValidationError::BuyingLessSharesThanMinAmount { min: s("1") },
        ValidationError::BuyingMoreSharesThanMaxTotalAmount { max: s("1"), currently_owned: s("0") },
        ValidationError::SharesForInvestorsGreaterThanSupply,
        ValidationError::MustBeAfterNow,
    ];
    let mut tags: Vec<String> = errors.into_iter().map(|e| to_validation_error_js(e).type_).collect();
    let count = tags.len();
    tags.sort();
    tags.dedup();
    assert_eq!(tags.len(), count);
}
