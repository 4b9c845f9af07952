//! The form that creates a DAO: each field is validated on its own, all
//! errors are reported together, and the values that the DAO is created with
//! are derived from the valid fields.

use vstd::prelude::*;
use vstd::utf8::*;
use crate::address::{Address, address_from_text};
use crate::decimal::{Decimal, decimal_from_text, pow10, pow10_u128, lemma_pow10_mono, lemma_pow10_28};
use crate::dependencies::FundsAssetSpecs;
use crate::inputs_validation::ValidationError;
use crate::number_text::{dec_digits, parse_u64, parse_u64_spec, u32_to_string, u64_to_string, usize_to_string};
use crate::text::{byte_len, concat_str, trim, trim_str, law_trim_idempotent};

verus! {

/// A number of shares.
#[derive(Debug, Clone, Copy, PartialEq, Eq)]
pub struct ShareAmount(pub u64);

/// An amount of the funds asset, in base units.
#[derive(Debug, Clone, Copy, PartialEq, Eq)]
pub struct FundsAmount(pub u64);

/// The part of the shares that is reserved to investors, in percent of the
/// supply (0 to 100), as the user entered it.
#[derive(Debug, Clone, Copy, PartialEq, Eq)]
pub struct SharesPercentage {
    pub percent: Decimal,
}

/// Whether `e` is a `MinLength` error with the given numbers.
pub open spec fn is_min_length_error(e: ValidationError, min: nat, actual: nat) -> bool {
    e matches ValidationError::MinLength { min: m, actual: a } && m@ == dec_digits(min) && a@
        == dec_digits(actual)
}

/// Whether `e` is a `MaxLength` error with the given numbers.
pub open spec fn is_max_length_error(e: ValidationError, max: nat, actual: nat) -> bool {
    e matches ValidationError::MaxLength { max: m, actual: a } && m@ == dec_digits(max) && a@
        == dec_digits(actual)
}

/// Whether the text, without its surrounding whitespace, has between `min`
/// and `max` bytes.
pub open spec fn text_in_bounds(text: Seq<char>, min: usize, max: usize) -> bool {
    min <= byte_len(trim(text)) <= max
}

/// The error for a text out of bounds: too short before too long.
pub open spec fn is_text_error(e: ValidationError, text: Seq<char>, min: usize, max: usize) -> bool {
    let len = byte_len(trim(text));
    if len < min {
        is_min_length_error(e, min as nat, len as nat)
    } else {
        len > max && is_max_length_error(e, max as nat, len as nat)
    }
}

/// What `validate_text_min_max_length` gives: the trimmed text where it is
/// in bounds, the error otherwise.
pub open spec fn is_text_result(
    r: Result<String, ValidationError>,
    text: Seq<char>,
    min: usize,
    max: usize,
) -> bool {
    match r {
        Ok(t) => text_in_bounds(text, min, max) && t@ == trim(text),
        Err(e) => is_text_error(e, text, min, max),
    }
}

/// Trims the text and checks that it has between `min` and `max` bytes.
pub fn validate_text_min_max_length(text: &str, min: usize, max: usize) -> (r: Result<
    String,
    ValidationError,
>)
    ensures
        is_text_result(r, text@, min, max),
{
    let text = trim_str(text);
    let len = text.as_str().len();
    if len < min {
        return Err(
            ValidationError::MinLength { min: usize_to_string(min), actual: usize_to_string(len) },
        );
    }
    if len > max {
        return Err(
            ValidationError::MaxLength { max: usize_to_string(max), actual: usize_to_string(len) },
        );
    }
    Ok(text)
}

/// The DAO's name: 2 to 40 bytes, without surrounding whitespace.
pub fn validate_dao_name(name: &str) -> (r: Result<String, ValidationError>)
    ensures
        is_text_result(r, name@, 2, 40),
{
    validate_text_min_max_length(name, 2, 40)
}

/// The DAO's description: at most 200 bytes, without surrounding whitespace.
pub fn validate_dao_description(descr: &str) -> (r: Result<String, ValidationError>)
    ensures
        is_text_result(r, descr@, 0, 200),
{
    validate_text_min_max_length(descr, 0, 200)
}

/// What `validate_address` gives: the address, or `Address` where the text
/// is none.
pub open spec fn is_address_result(r: Result<Address, ValidationError>, text: Seq<char>) -> bool {
    match r {
        Ok(a) => address_from_text(text) is Ok && address_from_text(text)->Ok_0 == a.bytes@,
        Err(e) => address_from_text(text) is Err && e matches ValidationError::Address,
    }
}

/// An address.
pub fn validate_address(s: &str) -> (r: Result<Address, ValidationError>)
    ensures
        is_address_result(r, s@),
{
    match Address::parse(s) {
        Ok(a) => Ok(a),
        Err(_) => Err(ValidationError::Address),
    }
}

/// Whether the text is a share supply: a `u64` other than 0.
pub open spec fn share_supply_valid(text: Seq<char>) -> bool {
    parse_u64_spec(text) matches Ok(n) && n > 0
}

/// The error for a share supply that is none: `NotAnInteger`, or `Min`
/// (1, and the 0 entered).
pub open spec fn is_share_supply_error(e: ValidationError, text: Seq<char>) -> bool {
    match parse_u64_spec(text) {
        Err(_) => e matches ValidationError::NotAnInteger,
        Ok(n) => n == 0 && (e matches ValidationError::Min { min, actual } && min@ == dec_digits(1)
            && actual@ == dec_digits(0)),
    }
}

/// What `validate_share_supply` gives.
pub open spec fn is_share_supply_result(r: Result<ShareAmount, ValidationError>, text: Seq<char>) -> bool {
    match r {
        Ok(s) => share_supply_valid(text) && parse_u64_spec(text)->Ok_0 == s.0,
        Err(e) => is_share_supply_error(e, text),
    }
}

/// The number of shares the DAO issues.
pub fn validate_share_supply(input: &str) -> (r: Result<ShareAmount, ValidationError>)
    ensures
        is_share_supply_result(r, input@),
{
    let share_count = match parse_u64(input) {
        Ok(n) => n,
        Err(_) => {
            return Err(ValidationError::NotAnInteger);
        },
    };
    if share_count == 0 {
        return Err(
            ValidationError::Min { min: u64_to_string(1), actual: u64_to_string(share_count) },
        );
    }
    Ok(ShareAmount(share_count))
}

/// The base units of an amount with the given mantissa and scale, in an
/// asset with `decimals` decimals.
pub open spec fn base_units(mantissa: int, scale: u32, decimals: u32) -> int {
    mantissa * pow10((decimals - scale) as nat)
}

/// What an amount of the funds asset entered as text gives: it must be a
/// decimal, not negative, with at most as many decimals as the asset has, and
/// its base units must fit in a `u64`.
pub open spec fn funds_amount_valid(text: Seq<char>, decimals: u32) -> bool {
    match decimal_from_text(text) {
        None => false,
        Some(p) => p.0 >= 0 && p.2 <= decimals && base_units(p.0 as int, p.2, decimals) <= u64::MAX,
    }
}

/// The error for an amount that is none.
pub open spec fn is_funds_amount_error(e: ValidationError, text: Seq<char>, decimals: u32) -> bool {
    match decimal_from_text(text) {
        None => e matches ValidationError::NotADecimal,
        Some(p) => if p.0 < 0 {
            e matches ValidationError::NotPositive
        } else if p.2 > decimals {
            e matches ValidationError::TooManyFractionalDigits { max, actual } && max@ == dec_digits(
                decimals as nat,
            ) && actual@ == dec_digits(p.2 as nat)
        } else {
            base_units(p.0 as int, p.2, decimals) > u64::MAX && (e matches ValidationError::Unexpected(
                m,
            ) && m@ == "Couldn't convert "@ + text + " to base units"@)
        },
    }
}

/// What `validate_funds_amount_input` gives.
pub open spec fn is_funds_amount_result(
    r: Result<FundsAmount, ValidationError>,
    text: Seq<char>,
    decimals: u32,
) -> bool {
    match r {
        Ok(a) => funds_amount_valid(text, decimals) && a.0 == base_units(
            decimal_from_text(text).unwrap().0 as int,
            decimal_from_text(text).unwrap().2,
            decimals,
        ),
        Err(e) => is_funds_amount_error(e, text, decimals),
    }
}

proof fn lemma_base_units_step(m: int, i: nat)
    ensures
        m * pow10(i + 1) == 10 * (m * pow10(i)),
{
    assert(pow10(i + 1) == 10 * pow10(i));
    assert(m * (10 * pow10(i)) == 10 * (m * pow10(i))) by (nonlinear_arith);
}

proof fn lemma_base_units_grow(m: int, i: nat, k: nat)
    requires
        m >= 0,
        i <= k,
    ensures
        m * pow10(i) <= m * pow10(k),
{
    lemma_pow10_mono(i, k);
    assert(m * pow10(i) <= m * pow10(k)) by (nonlinear_arith)
        requires
            m >= 0,
            pow10(i) <= pow10(k),
    ;
}

/// An amount of the funds asset, entered in the units in which it is shown,
/// to base units. A decimal text that is negative is refused with
/// `NotPositive`; one with more decimals than the asset with
/// `TooManyFractionalDigits`; one whose base units do not fit in a `u64`
/// with `Unexpected`.
pub fn validate_funds_amount_input(input: &str, funds_asset_specs: &FundsAssetSpecs) -> (r: Result<
    FundsAmount,
    ValidationError,
>)
    ensures
        is_funds_amount_result(r, input@, funds_asset_specs.decimals),
{
    let decimals = funds_asset_specs.decimals;
    let amount = match Decimal::parse(input) {
        Some(d) => d,
        None => {
            return Err(ValidationError::NotADecimal);
        },
    };
    if amount.mantissa < 0 {
        return Err(ValidationError::NotPositive);
    }
    if amount.scale > decimals {
        return Err(
            ValidationError::TooManyFractionalDigits {
                max: u32_to_string(decimals),
                actual: u32_to_string(amount.scale),
            },
        );
    }
    let ghost m = amount.mantissa as int;
    let k: u32 = decimals - amount.scale;
    let mut v: u128 = amount.mantissa as u128;
    let overflow = "Couldn't convert ";
    if v > u64::MAX as u128 {
        proof {
            lemma_base_units_grow(m, 0, k as nat);
            assert(pow10(0) == 1);
            assert(m * pow10(0) == m);
            assert(base_units(m, amount.scale, decimals) > u64::MAX);
        }
        let with_input = concat_str(overflow, input);
        return Err(ValidationError::Unexpected(concat_str(with_input.as_str(), " to base units")));
    }
    let mut i: u32 = 0;
    assert(pow10(0) == 1);
    assert(v == m * pow10(0));
    while i < k && v != 0
        invariant
            0 <= m,
            m == amount.mantissa,
            decimal_from_text(input@) == Some(amount.parts()),
            decimals == funds_asset_specs.decimals,
            overflow@ == "Couldn't convert "@,
            amount.scale <= decimals,
            k == decimals - amount.scale,
            i <= k,
            v == m * pow10(i as nat),
            v <= u64::MAX,
        decreases k - i,
    {
        proof {
            lemma_base_units_step(m, i as nat);
        }
        if v > (u64::MAX as u128) / 10 {
            proof {
                lemma_base_units_grow(m, (i + 1) as nat, k as nat);
                assert(base_units(m, amount.scale, decimals) > u64::MAX);
            }
            let with_input = concat_str(overflow, input);
            return Err(
                ValidationError::Unexpected(concat_str(with_input.as_str(), " to base units")),
            );
        }
        v = v * 10;
        i = i + 1;
    }
    proof {
        if v == 0 {
            lemma_pow10_mono(0, i as nat);
            assert(m == 0) by (nonlinear_arith)
                requires
                    v == m * pow10(i as nat),
                    v == 0,
                    pow10(i as nat) >= 1,
                    m >= 0,
            ;
            assert(m * pow10(k as nat) == 0) by (nonlinear_arith)
                requires
                    m == 0,
            ;
        }
    }
    Ok(FundsAmount(v as u64))
}

/// The price of one share.
pub fn validate_share_price(input: &str, funds_asset_specs: &FundsAssetSpecs) -> (r: Result<
    FundsAmount,
    ValidationError,
>)
    ensures
        is_funds_amount_result(r, input@, funds_asset_specs.decimals),
{
    validate_funds_amount_input(input, funds_asset_specs)
}

/// Whether the text is a percentage for the investors: a decimal from 0 to
/// 100.
pub open spec fn investors_share_valid(text: Seq<char>) -> bool {
    match decimal_from_text(text) {
        None => false,
        Some(p) => 0 <= p.0 <= 100 * pow10(p.2 as nat),
    }
}

/// The error for a percentage that is none: `NotADecimal`, `Min` (0) or
/// `Max` (100), with the decimal entered.
pub open spec fn is_investors_share_error(e: ValidationError, text: Seq<char>) -> bool {
    match decimal_from_text(text) {
        None => e matches ValidationError::NotADecimal,
        Some(p) => if p.0 < 0 {
            e matches ValidationError::Min { min, actual } && min@ == dec_digits(0) && actual@
                == Decimal { mantissa: p.0, negative: p.1, scale: p.2 }.text()
        } else {
            p.0 > 100 * pow10(p.2 as nat) && (e matches ValidationError::Max { max, actual } && max@
                == dec_digits(100) && actual@ == Decimal {
                mantissa: p.0,
                negative: p.1,
                scale: p.2,
            }.text())
        },
    }
}

/// What `validate_investors_share` gives.
pub open spec fn is_investors_share_result(
    r: Result<SharesPercentage, ValidationError>,
    text: Seq<char>,
) -> bool {
    match r {
        Ok(s) => investors_share_valid(text) && decimal_from_text(text) == Some(s.percent.parts()),
        Err(e) => is_investors_share_error(e, text),
    }
}

/// The part of the shares reserved to investors, in percent (0 to 100).
pub fn validate_investors_share(input: &str) -> (r: Result<SharesPercentage, ValidationError>)
    ensures
        is_investors_share_result(r, input@),
        r matches Ok(s) ==> s.percent.wf(),
        r is Ok <==> (decimal_from_text(input@) matches Some(p) && 0 <= p.0 && p.0 <= 100 * pow10(
            p.2 as nat,
        )),
        r matches Err(ValidationError::Max { .. }) ==> (decimal_from_text(input@) matches Some(p)
            && p.0 > 100 * pow10(p.2 as nat)),
{
    let value = match Decimal::parse(input) {
        Some(d) => d,
        None => {
            return Err(ValidationError::NotADecimal);
        },
    };
    if value.mantissa < 0 {
        return Err(ValidationError::Min { min: u64_to_string(0), actual: value.to_text() });
    }
    let unit = pow10_u128(value.scale);
    proof {
        lemma_pow10_28();
    }
    if value.mantissa as u128 > 100 * unit {
        return Err(ValidationError::Max { max: u64_to_string(100), actual: value.to_text() });
    }
    Ok(SharesPercentage { percent: value })
}

/// Whether the text has at most `max` bytes.
pub open spec fn is_max_chars_result(r: Result<String, ValidationError>, text: Seq<char>, max: usize) -> bool {
    match r {
        Ok(s) => byte_len(text) <= max && s@ == text,
        Err(e) => byte_len(text) > max && is_max_length_error(e, max as nat, byte_len(text) as nat),
    }
}

/// The URL of the DAO's logo: at most 100 bytes.
pub fn validate_logo_url(input: &str) -> (r: Result<String, ValidationError>)
    ensures
        is_max_chars_result(r, input@, 100),
{
    let count = input.len();
    let max_chars: usize = 100;
    if count > max_chars {
        return Err(
            ValidationError::MaxLength {
                max: usize_to_string(max_chars),
                actual: usize_to_string(count),
            },
        );
    }
    Ok(input.to_owned())
}

/// The URL of the DAO's social media page: at most 100 bytes.
pub fn validate_social_media_url(input: &str) -> (r: Result<String, ValidationError>)
    ensures
        is_max_chars_result(r, input@, 100),
{
    let count = input.len();
    let max_chars: usize = 100;
    if count > max_chars {
        return Err(
            ValidationError::MaxLength {
                max: usize_to_string(max_chars),
                actual: usize_to_string(count),
            },
        );
    }
    Ok(input.to_owned())
}

/// The longest asset name, in bytes.
pub open spec fn asset_name_max_len() -> usize {
    7
}

/// Whether the name can be cut after its 7th byte: it is no longer, or its
/// 8th byte begins a character.
pub open spec fn asset_name_cut_ok(name: Seq<char>) -> bool {
    byte_len(name) > asset_name_max_len() ==> is_char_boundary(encode_utf8(name), 7)
}

/// The error where the asset name cannot be cut from the name.
pub open spec fn asset_name_error(name: Seq<char>) -> Seq<char> {
    "Error generating asset name, based on: "@ + name
}

/// The asset name for a DAO name: the name, cut after 7 bytes where it is
/// longer. Where the 7th byte does not end a character, the name cannot be
/// cut there, and an error is returned instead of a crash.
pub fn generate_asset_name(validated_dao_name: &str) -> (r: Result<String, String>)
    ensures
        r is Ok <==> asset_name_cut_ok(validated_dao_name@),
        r matches Ok(name) ==> if byte_len(validated_dao_name@) > 7 {
            encode_utf8(name@) == encode_utf8(validated_dao_name@).subrange(0, 7)
        } else {
            name@ == validated_dao_name@
        },
        r matches Err(e) ==> e@ == asset_name_error(validated_dao_name@),
{
    proof {
        broadcast use encode_utf8_valid_utf8;
    }
    let asset_name_max_length: usize = 7;
    if validated_dao_name.len() > asset_name_max_length {
        if validated_dao_name.is_char_boundary(asset_name_max_length) {
            let (head, _) = validated_dao_name.split_at(asset_name_max_length);
            Ok(head.to_owned())
        } else {
            Err(concat_str("Error generating asset name, based on: ", validated_dao_name))
        }
    } else {
        Ok(validated_dao_name.to_owned())
    }
}

/// The investors' part of a share supply: `supply * percent / 100`, rounded
/// down.
pub open spec fn investors_part(supply: u64, percent: Decimal) -> int {
    (supply * percent.mantissa) / ((100 * pow10(percent.scale as nat)) as int)
}

/// Whether the product `supply * mantissa` fits in a `u128`, as the
/// computation of the investors' part needs.
pub open spec fn investors_part_computable(supply: u64, percent: Decimal) -> bool {
    supply * percent.mantissa <= u128::MAX
}

/// The text of the error where the investors' part cannot be computed.
pub open spec fn investors_part_error(supply: u64, percent: Decimal) -> Seq<char> {
    "Error calculating investors part, based on: "@ + percent.text() + " and: "@ + dec_digits(
        supply as nat,
    )
}

/// The number of shares reserved to investors: the part of the supply that
/// the percentage gives, rounded down. It is at most the supply.
pub fn validate_investors_part(investors_percentage: &SharesPercentage, shares_supply: ShareAmount) -> (r:
    Result<ShareAmount, String>)
    requires
        investors_percentage.percent.wf(),
        0 <= investors_percentage.percent.mantissa <= 100 * pow10(
            investors_percentage.percent.scale as nat,
        ),
    ensures
        match r {
            Ok(part) => investors_part_computable(shares_supply.0, investors_percentage.percent)
                && part.0 == investors_part(shares_supply.0, investors_percentage.percent)
                && part.0 <= shares_supply.0,
            Err(msg) => !investors_part_computable(shares_supply.0, investors_percentage.percent)
                && msg@ == investors_part_error(shares_supply.0, investors_percentage.percent),
        },
{
    let percent = investors_percentage.percent;
    let supply = shares_supply.0;
    let m = percent.mantissa as u128;
    let unit = pow10_u128(percent.scale);
    proof {
        lemma_pow10_28();
        lemma_pow10_mono(0, percent.scale as nat);
    }
    let d = 100 * unit;
    let product = match (supply as u128).checked_mul(m) {
        Some(p) => p,
        None => {
            let text = concat_str(
                "Error calculating investors part, based on: ",
                percent.to_text().as_str(),
            );
            let text = concat_str(text.as_str(), " and: ");
            return Err(concat_str(text.as_str(), u64_to_string(supply).as_str()));
        },
    };
    let part = product / d;
    proof {
        assert(part <= supply) by (nonlinear_arith)
            requires
                product == supply * m,
                m <= d,
                d > 0,
                part == product / d,
        ;
    }
    Ok(ShareAmount(part as u64))
}

/// The fields of the form that creates a DAO, as the user entered them.
#[derive(Debug, Clone, PartialEq, Eq)]
pub struct CreateDaoFormInputsJs {
    /// Not strictly a form field: the address of the user who creates the DAO.
    pub creator: String,
    pub dao_name: String,
    pub dao_description: String,
    pub share_count: String,
    pub share_price: String,
    /// A percentage.
    pub investors_share: String,
    pub logo_url: String,
    pub social_media_url: String,
}

/// The errors to show next to the fields of the form, one per field.
#[derive(Debug, Clone, PartialEq, Eq)]
pub struct CreateAssetsInputErrors {
    pub name: Option<ValidationError>,
    pub description: Option<ValidationError>,
    pub creator: Option<ValidationError>,
    pub share_supply: Option<ValidationError>,
    pub share_price: Option<ValidationError>,
    pub investors_share: Option<ValidationError>,
    pub logo_url: Option<ValidationError>,
    pub social_media_url: Option<ValidationError>,
}

/// Why the form was refused.
#[derive(Debug, Clone, PartialEq, Eq)]
pub enum ValidateDaoInputsError {
    /// Some fields are invalid: the error of each field.
    AllFieldsValidation(CreateAssetsInputErrors),
    InvestorsPartIsGreaterThanShareSupply,
    SingleFieldValidation { field: String, error: ValidationError },
    /// The fields are valid, but a value derived from them could not be
    /// computed.
    NonValidation(String),
}

/// The values that a DAO is created with.
#[derive(Debug, Clone, PartialEq, Eq)]
pub struct ValidatedDaoInputs {
    pub name: String,
    pub description: String,
    pub creator: Address,
    pub token_name: String,
    pub share_supply: ShareAmount,
    pub share_price: FundsAmount,
    pub investors_part: ShareAmount,
    pub logo_url: String,
    pub social_media_url: String,
}

/// The result of validating each field of the form.
pub struct DaoFieldResults {
    pub name: Result<String, ValidationError>,
    pub description: Result<String, ValidationError>,
    pub creator: Result<Address, ValidationError>,
    pub share_supply: Result<ShareAmount, ValidationError>,
    pub share_price: Result<FundsAmount, ValidationError>,
    pub logo_url: Result<String, ValidationError>,
    pub social_media_url: Result<String, ValidationError>,
    pub investors_share: Result<SharesPercentage, ValidationError>,
}

/// Whether every field of the form is valid.
pub open spec fn dao_fields_valid(inputs: CreateDaoFormInputsJs, decimals: u32) -> bool {
    &&& text_in_bounds(inputs.dao_name@, 2, 40)
    &&& text_in_bounds(inputs.dao_description@, 0, 200)
    &&& address_from_text(inputs.creator@) is Ok
    &&& share_supply_valid(inputs.share_count@)
    &&& funds_amount_valid(inputs.share_price@, decimals)
    &&& investors_share_valid(inputs.investors_share@)
    &&& byte_len(inputs.logo_url@) <= 100
    &&& byte_len(inputs.social_media_url@) <= 100
}

/// The error of one field: none where it is valid, else the one that its
/// validation gives.
pub open spec fn is_field_error(
    error: Option<ValidationError>,
    valid: bool,
    is_error: spec_fn(ValidationError) -> bool,
) -> bool {
    match error {
        None => valid,
        Some(e) => !valid && is_error(e),
    }
}

/// The errors of all fields of the form.
pub open spec fn is_input_errors(
    errors: CreateAssetsInputErrors,
    inputs: CreateDaoFormInputsJs,
    decimals: u32,
) -> bool {
    &&& is_field_error(
        errors.name,
        text_in_bounds(inputs.dao_name@, 2, 40),
        |e| is_text_error(e, inputs.dao_name@, 2, 40),
    )
    &&& is_field_error(
        errors.description,
        text_in_bounds(inputs.dao_description@, 0, 200),
        |e| is_text_error(e, inputs.dao_description@, 0, 200),
    )
    &&& is_field_error(
        errors.creator,
        address_from_text(inputs.creator@) is Ok,
        |e: ValidationError| e matches ValidationError::Address,
    )
    &&& is_field_error(
        errors.share_supply,
        share_supply_valid(inputs.share_count@),
        |e| is_share_supply_error(e, inputs.share_count@),
    )
    &&& is_field_error(
        errors.share_price,
        funds_amount_valid(inputs.share_price@, decimals),
        |e| is_funds_amount_error(e, inputs.share_price@, decimals),
    )
    &&& is_field_error(
        errors.investors_share,
        investors_share_valid(inputs.investors_share@),
        |e| is_investors_share_error(e, inputs.investors_share@),
    )
    &&& is_field_error(
        errors.logo_url,
        byte_len(inputs.logo_url@) <= 100,
        |e| is_max_length_error(e, 100, byte_len(inputs.logo_url@) as nat),
    )
    &&& is_field_error(
        errors.social_media_url,
        byte_len(inputs.social_media_url@) <= 100,
        |e| is_max_length_error(e, 100, byte_len(inputs.social_media_url@) as nat),
    )
}

/// The share supply entered (where it is valid).
pub open spec fn entered_share_supply(inputs: CreateDaoFormInputsJs) -> u64 {
    parse_u64_spec(inputs.share_count@)->Ok_0
}

/// The investors' percentage entered (where it is valid).
pub open spec fn entered_investors_percent(inputs: CreateDaoFormInputsJs) -> Decimal {
    let p = decimal_from_text(inputs.investors_share@).unwrap();
    Decimal { mantissa: p.0, negative: p.1, scale: p.2 }
}

/// The share price entered, in base units (where it is valid).
pub open spec fn entered_share_price(inputs: CreateDaoFormInputsJs, decimals: u32) -> int {
    let p = decimal_from_text(inputs.share_price@).unwrap();
    base_units(p.0 as int, p.2, decimals)
}

/// The asset name of a DAO name: its first 7 bytes where it is longer.
pub open spec fn is_asset_name(token: Seq<char>, name: Seq<char>) -> bool {
    if byte_len(name) > 7 {
        encode_utf8(token) == encode_utf8(name).subrange(0, 7)
    } else {
        token == name
    }
}

/// The values that valid fields give.
pub open spec fn is_validated_dao_inputs(
    v: ValidatedDaoInputs,
    inputs: CreateDaoFormInputsJs,
    decimals: u32,
) -> bool {
    &&& v.name@ == trim(inputs.dao_name@)
    &&& v.description@ == trim(inputs.dao_description@)
    &&& v.creator.bytes@ == address_from_text(inputs.creator@)->Ok_0
    &&& is_asset_name(v.token_name@, trim(inputs.dao_name@))
    &&& v.share_supply.0 == entered_share_supply(inputs)
    &&& v.share_price.0 == entered_share_price(inputs, decimals)
    &&& v.investors_part.0 == investors_part(
        entered_share_supply(inputs),
        entered_investors_percent(inputs),
    )
    &&& v.logo_url@ == inputs.logo_url@
    &&& v.social_media_url@ == inputs.social_media_url@
}

/// What `validate_dao_inputs` gives: the values, where every field is valid
/// and the investors' part can be computed; the errors of all fields, where
/// some are invalid; the error of the investors' part otherwise.
pub open spec fn is_validate_dao_inputs_result(
    r: Result<ValidatedDaoInputs, ValidateDaoInputsError>,
    inputs: CreateDaoFormInputsJs,
    decimals: u32,
) -> bool {
    match r {
        Ok(v) => dao_fields_valid(inputs, decimals) && asset_name_cut_ok(trim(inputs.dao_name@))
            && investors_part_computable(
            entered_share_supply(inputs),
            entered_investors_percent(inputs),
        ) && is_validated_dao_inputs(v, inputs, decimals),
        Err(ValidateDaoInputsError::AllFieldsValidation(errors)) => !dao_fields_valid(
            inputs,
            decimals,
        ) && is_input_errors(errors, inputs, decimals),
        Err(ValidateDaoInputsError::NonValidation(msg)) => dao_fields_valid(inputs, decimals) && if !asset_name_cut_ok(trim(inputs.dao_name@)) {
            msg@ == asset_name_error(trim(inputs.dao_name@))
        } else {
            !investors_part_computable(
                entered_share_supply(inputs),
                entered_investors_percent(inputs),
            ) && msg@ == investors_part_error(
                entered_share_supply(inputs),
                entered_investors_percent(inputs),
            )
        },
        Err(_) => false,
    }
}

/// Validates every field of the form, each on its own.
pub fn validate_dao_fields(inputs: &CreateDaoFormInputsJs, funds_asset_specs: &FundsAssetSpecs) -> (r:
    DaoFieldResults)
    ensures
        is_text_result(r.name, inputs.dao_name@, 2, 40),
        is_text_result(r.description, inputs.dao_description@, 0, 200),
        is_address_result(r.creator, inputs.creator@),
        is_share_supply_result(r.share_supply, inputs.share_count@),
        is_funds_amount_result(r.share_price, inputs.share_price@, funds_asset_specs.decimals),
        is_max_chars_result(r.logo_url, inputs.logo_url@, 100),
        is_max_chars_result(r.social_media_url, inputs.social_media_url@, 100),
        is_investors_share_result(r.investors_share, inputs.investors_share@),
        r.investors_share matches Ok(s) ==> s.percent.wf(),
{
    DaoFieldResults {
        name: validate_dao_name(inputs.dao_name.as_str()),
        description: validate_dao_description(inputs.dao_description.as_str()),
        creator: validate_address(inputs.creator.as_str()),
        share_supply: validate_share_supply(inputs.share_count.as_str()),
        share_price: validate_share_price(inputs.share_price.as_str(), funds_asset_specs),
        logo_url: validate_logo_url(inputs.logo_url.as_str()),
        social_media_url: validate_social_media_url(inputs.social_media_url.as_str()),
        investors_share: validate_investors_share(inputs.investors_share.as_str()),
    }
}

fn split_result<T>(r: Result<T, ValidationError>) -> (parts: (Option<T>, Option<ValidationError>))
    ensures
        match r {
            Ok(v) => parts.0 == Some(v) && parts.1.is_none(),
            Err(e) => parts.0.is_none() && parts.1 == Some(e),
        },
{
    match r {
        Ok(v) => (Some(v), None),
        Err(e) => (None, Some(e)),
    }
}

/// Validates the form that creates a DAO: every field is validated; if any
/// is invalid, the errors of all fields are returned together. Otherwise the
/// DAO's values are derived: the asset name from the name, and the
/// investors' part of the shares from the supply and the percentage.
pub fn validate_dao_inputs(inputs: &CreateDaoFormInputsJs, funds_asset_specs: &FundsAssetSpecs) -> (r:
    Result<ValidatedDaoInputs, ValidateDaoInputsError>)
    ensures
        is_validate_dao_inputs_result(r, *inputs, funds_asset_specs.decimals),
{
    let fields = validate_dao_fields(inputs, funds_asset_specs);
    let (name, name_err) = split_result(fields.name);
    let (description, description_err) = split_result(fields.description);
    let (creator, creator_err) = split_result(fields.creator);
    let (share_supply, share_supply_err) = split_result(fields.share_supply);
    let (share_price, share_price_err) = split_result(fields.share_price);
    let (logo_url, logo_url_err) = split_result(fields.logo_url);
    let (social_media_url, social_media_url_err) = split_result(fields.social_media_url);
    let (investors_share, investors_share_err) = split_result(fields.investors_share);
    if name_err.is_some() || description_err.is_some() || creator_err.is_some()
        || share_supply_err.is_some() || share_price_err.is_some() || logo_url_err.is_some()
        || social_media_url_err.is_some() || investors_share_err.is_some() {
        let errors = CreateAssetsInputErrors {
            name: name_err,
            description: description_err,
            creator: creator_err,
            share_supply: share_supply_err,
            share_price: share_price_err,
            investors_share: investors_share_err,
            logo_url: logo_url_err,
            social_media_url: social_media_url_err,
        };
        return Err(ValidateDaoInputsError::AllFieldsValidation(errors));
    }
    let name = name.unwrap();
    let description = description.unwrap();
    let creator = creator.unwrap();
    let share_supply = share_supply.unwrap();
    let share_price = share_price.unwrap();
    let logo_url = logo_url.unwrap();
    let social_media_url = social_media_url.unwrap();
    let investors_share = investors_share.unwrap();
    let token_name = match generate_asset_name(name.as_str()) {
        Ok(t) => t,
        Err(e) => {
            return Err(ValidateDaoInputsError::NonValidation(e));
        },
    };
    let investors_part = match validate_investors_part(&investors_share, share_supply) {
        Ok(part) => part,
        Err(msg) => {
            return Err(ValidateDaoInputsError::NonValidation(msg));
        },
    };
    if investors_part.0 > share_supply.0 {
        return Err(ValidateDaoInputsError::InvestorsPartIsGreaterThanShareSupply);
    }
    Ok(
        ValidatedDaoInputs {
            name,
            description,
            creator,
            token_name,
            share_supply,
            share_price,
            investors_part,
            logo_url,
            social_media_url,
        },
    )
}

/// A text that passed the length validation passes it again unchanged: it
/// is its own trimmed form, and within the same bounds (the next step of the
/// flow validates the forwarded inputs again).
pub proof fn law_validated_text_revalidates(text: Seq<char>, min: usize, max: usize)
    requires
        text_in_bounds(text, min, max),
    ensures
        text_in_bounds(trim(text), min, max),
        trim(trim(text)) == trim(text),
{
    law_trim_idempotent(text);
}

/// For a percentage from 0 to 100, the investors' part of a supply is
/// between 0 and the supply: the investors never get more shares than
/// there are.
pub proof fn law_investors_part_within_supply(supply: u64, percent: Decimal)
    requires
        0 <= percent.mantissa <= 100 * pow10(percent.scale as nat),
    ensures
        0 <= investors_part(supply, percent) <= supply,
{
    lemma_pow10_mono(0, percent.scale as nat);
    let m = percent.mantissa as int;
    let d = (100 * pow10(percent.scale as nat)) as int;
    assert(0 <= (supply * m) / d <= supply) by (nonlinear_arith)
        requires
            0 <= m <= d,
            d > 0,
            supply >= 0,
    {
        assert(supply * m <= supply * d);
        assert((supply * d) / d == supply);
    }
}

/// The values of a validated DAO form are within the bounds that the form
/// is validated against: a name of 2 to 40 bytes, a description of at most
/// 200, an asset name of at most 7, a supply of at least one share, an
/// investors' part of at most the supply, URLs of at most 100 bytes; and
/// the name and description pass the validation again unchanged.
pub proof fn law_validated_dao_inputs_bounds(
    inputs: CreateDaoFormInputsJs,
    decimals: u32,
    v: ValidatedDaoInputs,
)
    requires
        is_validate_dao_inputs_result(
            Ok::<ValidatedDaoInputs, ValidateDaoInputsError>(v),
            inputs,
            decimals,
        ),
    ensures
        2 <= byte_len(v.name@) <= 40,
        byte_len(v.description@) <= 200,
        byte_len(v.token_name@) <= 7,
        1 <= v.share_supply.0,
        v.investors_part.0 <= v.share_supply.0,
        byte_len(v.logo_url@) <= 100,
        byte_len(v.social_media_url@) <= 100,
        text_in_bounds(v.name@, 2, 40) && trim(v.name@) == v.name@,
        text_in_bounds(v.description@, 0, 200) && trim(v.description@) == v.description@,
{
    law_validated_text_revalidates(inputs.dao_name@, 2, 40);
    law_validated_text_revalidates(inputs.dao_description@, 0, 200);
    law_investors_part_within_supply(
        entered_share_supply(inputs),
        entered_investors_percent(inputs),
    );
}

/// A percentage for the investors is accepted exactly when its value,
/// `mantissa / 10^scale`, is from 0 to 100 (compared with its scale, so
/// that 50.5, mantissa 505 and scale 1, is accepted); `Max` is the error
/// only of a value above 100, and `Min` only of one below 0.
pub proof fn law_investors_share_is_a_scaled_percentage(text: Seq<char>, e: ValidationError)
    ensures
        investors_share_valid(text) <==> (decimal_from_text(text) matches Some(p) && 0 <= p.0
            && p.0 <= 100 * pow10(p.2 as nat)),
        is_investors_share_error(e, text) && e is Max ==> (decimal_from_text(text) matches Some(p)
            && p.0 > 100 * pow10(p.2 as nat)),
        is_investors_share_error(e, text) && e is Min ==> (decimal_from_text(text) matches Some(p)
            && p.0 < 0),
{
}

/// The base units of an amount are its value in the asset's smallest unit:
/// multiplied back by `10^scale`, they give the entered mantissa times
/// `10^decimals` (the amount `mantissa / 10^scale` equals
/// `base_units / 10^decimals`).
pub proof fn law_base_units_keep_the_value(mantissa: int, scale: u32, decimals: u32)
    requires
        scale <= decimals,
    ensures
        base_units(mantissa, scale, decimals) * pow10(scale as nat) == mantissa * pow10(
            decimals as nat,
        ),
{
    lemma_pow10_add(scale as nat, (decimals - scale) as nat);
    let a = pow10((decimals - scale) as nat) as int;
    let b = pow10(scale as nat) as int;
    assert(mantissa * a * b == mantissa * (b * a)) by (nonlinear_arith);
}

proof fn lemma_pow10_add(a: nat, b: nat)
    ensures
        pow10(a + b) == pow10(a) * pow10(b),
    decreases a,
{
    if a > 0 {
        lemma_pow10_add((a - 1) as nat, b);
        assert(pow10(a + b) == 10 * pow10((a - 1 + b) as nat));
        assert(10 * (pow10((a - 1) as nat) * pow10(b)) == (10 * pow10((a - 1) as nat)) * pow10(b))
            by (nonlinear_arith);
        assert(pow10(a) == 10 * pow10((a - 1) as nat));
    } else {
        assert(pow10(0) == 1);
        assert(a + b == b);
    }
}

/// The investors' part is the supply times the percentage, rounded down:
/// the part times `100 * 10^scale` is at most `supply * mantissa`, and one
/// share more would exceed it.
pub proof fn law_investors_part_rounds_down(supply: u64, percent: Decimal)
    requires
        percent.mantissa >= 0,
    ensures
        investors_part(supply, percent) * (100 * pow10(percent.scale as nat)) <= supply
            * percent.mantissa,
        supply * percent.mantissa < (investors_part(supply, percent) + 1) * (100 * pow10(
            percent.scale as nat,
        )),
{
    lemma_pow10_mono(0, percent.scale as nat);
    let a = supply * percent.mantissa;
    let d = (100 * pow10(percent.scale as nat)) as int;
    assert(d > 0);
    assert((a / d) * d <= a && a < (a / d + 1) * d) by (nonlinear_arith)
        requires
            d > 0,
            a >= 0,
    {
        assert(a == d * (a / d) + a % d);
    }
}

} // verus!
