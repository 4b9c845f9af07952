//! The form in which validation errors are handed to the frontend: a type
//! tag and, for the errors that carry numbers, one detail record.

use vstd::prelude::*;
use crate::inputs_validation::ValidationError;

verus! {

#[derive(Debug, Clone, PartialEq, Eq)]
pub struct ValidationErrorMinLengthJs {
    pub min: String,
    pub actual: String,
}

#[derive(Debug, Clone, PartialEq, Eq)]
pub struct ValidationErrorMaxLengthJs {
    pub max: String,
    pub actual: String,
}

#[derive(Debug, Clone, PartialEq, Eq)]
pub struct ValidationErrorMinJs {
    pub min: String,
}

#[derive(Debug, Clone, PartialEq, Eq)]
pub struct ValidationErrorMaxJs {
    pub max: String,
}

#[derive(Debug, Clone, PartialEq, Eq)]
pub struct ValidationErrorMaxBuySharesJs {
    pub max: String,
    pub currently_owned: String,
}

#[derive(Debug, Clone, PartialEq, Eq)]
pub struct TooManyFractionalDigitsJs {
    pub max: String,
    pub actual: String,
}

/// A validation error as the frontend reads it: `type_` names the kind of
/// error; the detail field of that kind, if it has one, is set; the others
/// are not.
#[derive(Debug, Clone, PartialEq, Eq)]
pub struct ValidationErrorJs {
    pub type_: String,
    pub min_length: Option<ValidationErrorMinLengthJs>,
    pub max_length: Option<ValidationErrorMaxLengthJs>,
    pub min: Option<ValidationErrorMinJs>,
    pub max: Option<ValidationErrorMaxJs>,
    pub max_share_buy: Option<ValidationErrorMaxBuySharesJs>,
    pub max_fractionals: Option<TooManyFractionalDigitsJs>,
    pub unexpected: Option<String>,
}

/// The type tag under which the frontend knows each kind of error.
pub open spec fn validation_error_type(error: ValidationError) -> Seq<char> {
    match error {
        ValidationError::Empty => "empty"@,
        ValidationError::MinLength { .. } => "min_length"@,
        ValidationError::MaxLength { .. } => "max_length"@,
        ValidationError::Min { .. } => "min"@,
        ValidationError::Max { .. } => "max"@,
        ValidationError::Address => "address"@,
        ValidationError::NotAnInteger => "not_int"@,
        ValidationError::NotPositive => "not_pos"@,
        ValidationError::NotADecimal => "not_dec"@,
        ValidationError::NotTimestamp => "not_timestamp"@,
        ValidationError::TooManyFractionalDigits { .. } => "max_fractionals"@,
        ValidationError::ShareCountLargerThanAvailable => "count_le_supply"@,
        ValidationError::Unexpected(_) => "unexpected"@,
        ValidationError::MustBeLessThanMaxInvestAmount => "must_be_less_max_invest"@,
        ValidationError::MustBeGreaterThanMinInvestAmount => "must_be_more_min_min_invest"@,
        ValidationError::BuyingLessSharesThanMinAmount { .. } => "buying_less_shares_than_min"@,
        ValidationError::BuyingMoreSharesThanMaxTotalAmount {
            ..
        } => "buying_more_shares_than_max"@,
        ValidationError::SharesForInvestorsGreaterThanSupply => "shares_for_investors_greater_than_supply"@,
        ValidationError::MustBeAfterNow => "mus_be_after_now"@,
    }
}

/// The detail fields of the frontend form of `error`, in the order
/// `min_length`, `max_length`, `min`, `max`, `max_share_buy`,
/// `max_fractionals`, `unexpected`: each set where `error` is of its kind.
pub open spec fn validation_error_details(error: ValidationError) -> (
    Option<ValidationErrorMinLengthJs>,
    Option<ValidationErrorMaxLengthJs>,
    Option<ValidationErrorMinJs>,
    Option<ValidationErrorMaxJs>,
    Option<ValidationErrorMaxBuySharesJs>,
    Option<TooManyFractionalDigitsJs>,
    Option<String>,
) {
    (
        match error {
            ValidationError::MinLength { min, actual } => Some(
                ValidationErrorMinLengthJs { min, actual },
            ),
            _ => None,
        },
        match error {
            ValidationError::MaxLength { max, actual } => Some(
                ValidationErrorMaxLengthJs { max, actual },
            ),
            _ => None,
        },
        match error {
            ValidationError::Min { min, .. } => Some(ValidationErrorMinJs { min }),
            ValidationError::BuyingLessSharesThanMinAmount { min } => Some(
                ValidationErrorMinJs { min },
            ),
            _ => None,
        },
        match error {
            ValidationError::Max { max, .. } => Some(ValidationErrorMaxJs { max }),
            _ => None,
        },
        match error {
            ValidationError::BuyingMoreSharesThanMaxTotalAmount { max, currently_owned } => Some(
                ValidationErrorMaxBuySharesJs { max, currently_owned },
            ),
            _ => None,
        },
        match error {
            ValidationError::TooManyFractionalDigits { max, actual } => Some(
                TooManyFractionalDigitsJs { max, actual },
            ),
            _ => None,
        },
        match error {
            ValidationError::Unexpected(s) => Some(s),
            _ => None,
        },
    )
}

/// Whether `js` is the frontend form of `error`: its type tag and every
/// detail field are those that `error` gives.
pub open spec fn is_validation_error_js(js: ValidationErrorJs, error: ValidationError) -> bool {
    let expected = validation_error_details(error);
    &&& js.type_@ == validation_error_type(error)
    &&& js.min_length == expected.0
    &&& js.max_length == expected.1
    &&& js.min == expected.2
    &&& js.max == expected.3
    &&& js.max_share_buy == expected.4
    &&& js.max_fractionals == expected.5
    &&& js.unexpected == expected.6
}

fn validation_error_type_name(error: &ValidationError) -> (s: String)
    ensures
        s@ == validation_error_type(*error),
{
    match error {
        ValidationError::Empty => "empty",
        ValidationError::MinLength { .. } => "min_length",
        ValidationError::MaxLength { .. } => "max_length",
        ValidationError::Min { .. } => "min",
        ValidationError::Max { .. } => "max",
        ValidationError::Address => "address",
        ValidationError::NotAnInteger => "not_int",
        ValidationError::NotPositive => "not_pos",
        ValidationError::NotADecimal => "not_dec",
        ValidationError::NotTimestamp => "not_timestamp",
        ValidationError::TooManyFractionalDigits { .. } => "max_fractionals",
        ValidationError::ShareCountLargerThanAvailable => "count_le_supply",
        ValidationError::Unexpected(_) => "unexpected",
        ValidationError::MustBeLessThanMaxInvestAmount => "must_be_less_max_invest",
        ValidationError::MustBeGreaterThanMinInvestAmount => "must_be_more_min_min_invest",
        ValidationError::BuyingLessSharesThanMinAmount { .. } => "buying_less_shares_than_min",
        ValidationError::BuyingMoreSharesThanMaxTotalAmount {
            ..
        } => "buying_more_shares_than_max",
        ValidationError::SharesForInvestorsGreaterThanSupply => "shares_for_investors_greater_than_supply",
        ValidationError::MustBeAfterNow => "mus_be_after_now",
    }.to_owned()
}

/// The frontend form of a validation error.
pub fn to_validation_error_js(error: ValidationError) -> (js: ValidationErrorJs)
    ensures
        is_validation_error_js(js, error),
{
    let type_ = validation_error_type_name(&error);
    let min_length = match &error {
        ValidationError::MinLength { min, actual } => Some(
            ValidationErrorMinLengthJs { min: min.clone(), actual: actual.clone() },
        ),
        _ => None,
    };
    let max_length = match &error {
        ValidationError::MaxLength { max, actual } => Some(
            ValidationErrorMaxLengthJs { max: max.clone(), actual: actual.clone() },
        ),
        _ => None,
    };
    let min = match &error {
        ValidationError::Min { min, .. } => Some(ValidationErrorMinJs { min: min.clone() }),
        ValidationError::BuyingLessSharesThanMinAmount { min } => Some(
            ValidationErrorMinJs { min: min.clone() },
        ),
        _ => None,
    };
    let max = match &error {
        ValidationError::Max { max, .. } => Some(ValidationErrorMaxJs { max: max.clone() }),
        _ => None,
    };
    let max_share_buy = match &error {
        ValidationError::BuyingMoreSharesThanMaxTotalAmount { max, currently_owned } => Some(
            ValidationErrorMaxBuySharesJs {
                max: max.clone(),
                currently_owned: currently_owned.clone(),
            },
        ),
        _ => None,
    };
    let max_fractionals = match &error {
        ValidationError::TooManyFractionalDigits { max, actual } => Some(
            TooManyFractionalDigitsJs { max: max.clone(), actual: actual.clone() },
        ),
        _ => None,
    };
    let unexpected = match error {
        ValidationError::Unexpected(s) => Some(s),
        _ => None,
    };
    ValidationErrorJs {
        type_,
        min_length,
        max_length,
        min,
        max,
        max_share_buy,
        max_fractionals,
        unexpected,
    }
}

/// The kind of a validation error: the position of its variant.
pub open spec fn validation_error_kind(error: ValidationError) -> nat {
    match error {
        ValidationError::Empty => 0,
        ValidationError::MinLength { .. } => 1,
        ValidationError::MaxLength { .. } => 2,
        ValidationError::Min { .. } => 3,
        ValidationError::Max { .. } => 4,
        ValidationError::Address => 5,
        ValidationError::NotAnInteger => 6,
        ValidationError::NotPositive => 7,
        ValidationError::NotADecimal => 8,
        ValidationError::NotTimestamp => 9,
        ValidationError::TooManyFractionalDigits { .. } => 10,
        ValidationError::ShareCountLargerThanAvailable => 11,
        ValidationError::Unexpected(_) => 12,
        ValidationError::MustBeLessThanMaxInvestAmount => 13,
        ValidationError::MustBeGreaterThanMinInvestAmount => 14,
        ValidationError::BuyingLessSharesThanMinAmount { .. } => 15,
        ValidationError::BuyingMoreSharesThanMaxTotalAmount { .. } => 16,
        ValidationError::SharesForInvestorsGreaterThanSupply => 17,
        ValidationError::MustBeAfterNow => 18,
    }
}

/// A few features of a type tag that tell the tags apart: its length and
/// its characters at positions 1, 4 and 7 (a space where it is shorter).
spec fn tag_features(t: Seq<char>) -> (nat, char, char, char) {
    (t.len(), t[1], if t.len() > 4 {
        t[4]
    } else {
        ' '
    }, if t.len() > 7 {
        t[7]
    } else {
        ' '
    })
}

/// The features of the tag of each kind.
spec fn kind_features(kind: nat) -> (nat, char, char, char) {
    if kind == 0 {
        (5, 'm', 'y', ' ')
    } else if kind == 1 {
        (10, 'i', 'l', 'g')
    } else if kind == 2 {
        (10, 'a', 'l', 'g')
    } else if kind == 3 {
        (3, 'i', ' ', ' ')
    } else if kind == 4 {
        (3, 'a', ' ', ' ')
    } else if kind == 5 {
        (7, 'd', 'e', ' ')
    } else if kind == 6 {
        (7, 'o', 'i', ' ')
    } else if kind == 7 {
        (7, 'o', 'p', ' ')
    } else if kind == 8 {
        (7, 'o', 'd', ' ')
    } else if kind == 9 {
        (13, 'o', 't', 'e')
    } else if kind == 10 {
        (15, 'a', 'f', 'c')
    } else if kind == 11 {
        (15, 'o', 't', 'e')
    } else if kind == 12 {
        (10, 'n', 'p', 't')
    } else if kind == 13 {
        (23, 'u', '_', '_')
    } else if kind == 14 {
        (27, 'u', '_', '_')
    } else if kind == 15 {
        (27, 'u', 'n', 'l')
    } else if kind == 16 {
        (27, 'u', 'n', 'm')
    } else if kind == 17 {
        (40, 'h', 'e', 'f')
    } else {
        (16, 'u', 'b', 'a')
    }
}

proof fn lemma_tag_features(e: ValidationError)
    ensures
        tag_features(validation_error_type(e)) == kind_features(validation_error_kind(e)),
{
    match e {
        ValidationError::Empty => { reveal_strlit("empty"); },
        ValidationError::MinLength { .. } => { reveal_strlit("min_length"); },
        ValidationError::MaxLength { .. } => { reveal_strlit("max_length"); },
        ValidationError::Min { .. } => { reveal_strlit("min"); },
        ValidationError::Max { .. } => { reveal_strlit("max"); },
        ValidationError::Address => { reveal_strlit("address"); },
        ValidationError::NotAnInteger => { reveal_strlit("not_int"); },
        ValidationError::NotPositive => { reveal_strlit("not_pos"); },
        ValidationError::NotADecimal => { reveal_strlit("not_dec"); },
        ValidationError::NotTimestamp => { reveal_strlit("not_timestamp"); },
        ValidationError::TooManyFractionalDigits { .. } => { reveal_strlit("max_fractionals"); },
        ValidationError::ShareCountLargerThanAvailable => { reveal_strlit("count_le_supply"); },
        ValidationError::Unexpected(_) => { reveal_strlit("unexpected"); },
        ValidationError::MustBeLessThanMaxInvestAmount => { reveal_strlit("must_be_less_max_invest"); },
        ValidationError::MustBeGreaterThanMinInvestAmount => { reveal_strlit("must_be_more_min_min_invest"); },
        ValidationError::BuyingLessSharesThanMinAmount { .. } => { reveal_strlit("buying_less_shares_than_min"); },
        ValidationError::BuyingMoreSharesThanMaxTotalAmount { .. } => { reveal_strlit("buying_more_shares_than_max"); },
        ValidationError::SharesForInvestorsGreaterThanSupply => { reveal_strlit("shares_for_investors_greater_than_supply"); },
        ValidationError::MustBeAfterNow => { reveal_strlit("mus_be_after_now"); },
    }
}

/// The frontend tells the kinds of errors apart by their type tag: errors
/// of different kinds have different tags.
pub proof fn law_error_type_identifies_kind(a: ValidationError, b: ValidationError)
    ensures
        validation_error_kind(a) != validation_error_kind(b) ==> validation_error_type(a)
            != validation_error_type(b),
{
    lemma_tag_features(a);
    lemma_tag_features(b);
}

} // verus!
