//! The validation errors shown next to the input fields.

use vstd::prelude::*;

verus! {

/// Why an input field was refused.
///
/// Numbers are carried as their decimal text: they are only shown to the
/// user, and text serves numbers of any type alike.
#[derive(Debug, Clone, PartialEq, Eq)]
pub enum ValidationError {
    Empty,
    MinLength { min: String, actual: String },
    MaxLength { max: String, actual: String },
    Min { min: String, actual: String },
    Max { max: String, actual: String },
    Address,
    NotAnInteger,
    NotPositive,
    NotADecimal,
    NotTimestamp,
    TooManyFractionalDigits { max: String, actual: String },
    ShareCountLargerThanAvailable,
    /// Related to validation but not directly attributable to the user (e.g.
    /// overflows when converting entered quantities to base units). The
    /// conditions that lead to it are validated before, so it is not expected.
    Unexpected(String),
    MustBeLessThanMaxInvestAmount,
    MustBeGreaterThanMinInvestAmount,
    BuyingLessSharesThanMinAmount { min: String },
    BuyingMoreSharesThanMaxTotalAmount { max: String, currently_owned: String },
    SharesForInvestorsGreaterThanSupply,
    MustBeAfterNow,
}

} // verus!
