//! The form that creates a project: the fields are validated one after the
//! other, and the first invalid one ends the validation with its message.

use vstd::prelude::*;
use vstd::utf8::*;
use crate::address::{Address, address_from_text};
use crate::dependencies::FundsAssetSpecs;
use crate::inputs_validation::ValidationError;
use crate::js::create_dao::{
    text_in_bounds, funds_amount_valid,
    FundsAmount, asset_name_cut_ok, asset_name_error, generate_asset_name, is_asset_name, is_funds_amount_error,
    is_funds_amount_result, validate_funds_amount_input,
};
use crate::number_text::{dec_digits, int_error_message, int_error_text, parse_u64, parse_u64_spec};
use crate::text::{byte_len, concat_str, trim, trim_str};

verus! {

/// The fields of the form that creates a project, as the user entered them.
#[derive(Debug, Clone, PartialEq, Eq)]
pub struct CreateProjectFormInputsJs {
    /// Not strictly a form field: the address of the user who creates the project.
    pub creator: String,
    pub project_name: String,
    pub project_description: String,
    pub share_count: String,
    pub share_price: String,
    pub investors_share: String,
    pub logo_url: String,
    pub social_media_url: String,
}

/// The values that a project is created with.
#[derive(Debug, Clone, PartialEq, Eq)]
pub struct ValidatedProjectInputs {
    pub name: String,
    pub description: String,
    pub creator: Address,
    pub token_name: String,
    pub share_count: u64,
    pub share_price: FundsAmount,
    pub investors_share: u64,
    pub logo_url: String,
    pub social_media_url: String,
}

/// Why the form was refused: a message for the user, or the validation
/// error of the share price.
#[derive(Debug, Clone, PartialEq, Eq)]
pub enum ProjectInputsError {
    Message(String),
    SharePrice(ValidationError),
}

/// Whether `r` is an error with the message `msg`.
pub open spec fn is_message<T>(r: Result<T, ProjectInputsError>, msg: Seq<char>) -> bool {
    r matches Err(ProjectInputsError::Message(m)) && m@ == msg
}

/// The message for a text that is too short.
pub open spec fn too_short_message(field: Seq<char>, min: usize, len: usize) -> Seq<char> {
    field + " must have at least "@ + dec_digits(min as nat) + " characters. Current: "@
        + dec_digits(len as nat)
}

/// The message for a text that is too long.
pub open spec fn too_long_message(field: Seq<char>, max: usize, len: usize) -> Seq<char> {
    field + " must not have more than "@ + dec_digits(max as nat) + " characters. Current: "@
        + dec_digits(len as nat)
}

/// What `validate_text_min_max_length` gives for the field `field`: the
/// trimmed text where it has `min` to `max` bytes, a message otherwise.
pub open spec fn is_project_text_result(
    r: Result<String, ProjectInputsError>,
    text: Seq<char>,
    min: usize,
    max: usize,
    field: Seq<char>,
) -> bool {
    let len = byte_len(trim(text));
    if len < min {
        is_message(r, too_short_message(field, min, len))
    } else if len > max {
        is_message(r, too_long_message(field, max, len))
    } else {
        r matches Ok(t) && t@ == trim(text)
    }
}

fn text_bound_message(field_name: &str, bound_text: &str, bound: usize, len: usize) -> (s: String)
    ensures
        s@ == field_name@ + bound_text@ + dec_digits(bound as nat) + " characters. Current: "@
            + dec_digits(len as nat),
{
    let s = concat_str(field_name, bound_text);
    let s = concat_str(s.as_str(), crate::number_text::usize_to_string(bound).as_str());
    let s = concat_str(s.as_str(), " characters. Current: ");
    concat_str(s.as_str(), crate::number_text::usize_to_string(len).as_str())
}

/// Trims the text and checks that it has between `min` and `max` bytes; the
/// messages name the field.
pub fn validate_text_min_max_length(text: &str, min: usize, max: usize, field_name: &str) -> (r:
    Result<String, ProjectInputsError>)
    ensures
        is_project_text_result(r, text@, min, max, field_name@),
{
    let text = trim_str(text);
    let len = text.as_str().len();
    if len < min {
        return Err(
            ProjectInputsError::Message(
                text_bound_message(field_name, " must have at least ", min, len),
            ),
        );
    }
    if len > max {
        return Err(
            ProjectInputsError::Message(
                text_bound_message(field_name, " must not have more than ", max, len),
            ),
        );
    }
    Ok(text)
}

/// The project's name: 2 to 40 bytes, without surrounding whitespace.
pub fn validate_project_name(name: &str) -> (r: Result<String, ProjectInputsError>)
    ensures
        is_project_text_result(r, name@, 2, 40, "Project name"@),
{
    validate_text_min_max_length(name, 2, 40, "Project name")
}

/// The project's description: at most 200 bytes, without surrounding
/// whitespace.
pub fn validate_project_description(descr: &str) -> (r: Result<String, ProjectInputsError>)
    ensures
        is_project_text_result(r, descr@, 0, 200, "Project description"@),
{
    validate_text_min_max_length(descr, 0, 200, "Project description")
}

/// What the share count gives: a `u64` other than 0; the message of the
/// `ParseIntError` where it is no `u64`.
pub open spec fn is_share_count_result(r: Result<u64, ProjectInputsError>, text: Seq<char>) -> bool {
    match parse_u64_spec(text) {
        Err(kind) => is_message(r, int_error_text(kind)),
        Ok(n) => if n == 0 {
            is_message(r, "Please enter a valid share count"@)
        } else {
            r matches Ok(c) && c == n
        },
    }
}

/// The number of shares the project issues.
pub fn validate_share_count(input: &str) -> (r: Result<u64, ProjectInputsError>)
    ensures
        is_share_count_result(r, input@),
{
    let share_count = match parse_u64(input) {
        Ok(n) => n,
        Err(kind) => {
            return Err(ProjectInputsError::Message(int_error_message(kind)));
        },
    };
    if share_count == 0 {
        return Err(ProjectInputsError::Message("Please enter a valid share count".to_owned()));
    }
    Ok(share_count)
}

/// What the investors' share gives: a whole percentage from 1 to 100.
pub open spec fn is_project_investors_share_result(
    r: Result<u64, ProjectInputsError>,
    text: Seq<char>,
) -> bool {
    match parse_u64_spec(text) {
        Err(kind) => is_message(r, int_error_text(kind)),
        Ok(n) => if n == 0 || n > 100 {
            is_message(r, "Investor's share must be a number between 1 and 100"@)
        } else {
            r matches Ok(c) && c == n
        },
    }
}

/// The part of the shares reserved to investors, a whole percentage.
pub fn validate_investors_share(input: &str) -> (r: Result<u64, ProjectInputsError>)
    ensures
        is_project_investors_share_result(r, input@),
{
    let count = match parse_u64(input) {
        Ok(n) => n,
        Err(kind) => {
            return Err(ProjectInputsError::Message(int_error_message(kind)));
        },
    };
    if count == 0 || count > 100 {
        return Err(
            ProjectInputsError::Message(
                "Investor's share must be a number between 1 and 100".to_owned(),
            ),
        );
    }
    Ok(count)
}

/// What a URL field gives: the text where it has at most 100 bytes, the
/// message otherwise.
pub open spec fn is_url_result(r: Result<String, ProjectInputsError>, text: Seq<char>, msg: Seq<char>) -> bool {
    if byte_len(text) > 100 {
        is_message(r, msg)
    } else {
        r matches Ok(s) && s@ == text
    }
}

/// The message for a logo URL that is too long.
pub open spec fn logo_url_message() -> Seq<char> {
    "Logo URL must not have more than 100 characters. Consider using a URL shortener."@
}

/// The message for a social media URL that is too long.
pub open spec fn social_media_url_message() -> Seq<char> {
    "Social media URL must not have more than 100 characters. Consider using a URL shortener."@
}

/// The URL of the project's logo: at most 100 bytes.
pub fn validate_logo_url(input: &str) -> (r: Result<String, ProjectInputsError>)
    ensures
        is_url_result(r, input@, logo_url_message()),
{
    let count = input.len();
    if count > 100 {
        return Err(
            ProjectInputsError::Message(
                "Logo URL must not have more than 100 characters. Consider using a URL shortener.".to_owned(),
            ),
        );
    }
    Ok(input.to_owned())
}

/// The URL of the project's social media page: at most 100 bytes.
pub fn validate_social_media_url(input: &str) -> (r: Result<String, ProjectInputsError>)
    ensures
        is_url_result(r, input@, social_media_url_message()),
{
    let count = input.len();
    if count > 100 {
        return Err(
            ProjectInputsError::Message(
                "Social media URL must not have more than 100 characters. Consider using a URL shortener.".to_owned(),
            ),
        );
    }
    Ok(input.to_owned())
}

/// What the share price gives: the amount in base units, or the validation
/// error of the amount.
pub open spec fn is_project_share_price_result(
    r: Result<FundsAmount, ProjectInputsError>,
    text: Seq<char>,
    decimals: u32,
) -> bool {
    match r {
        Ok(a) => is_funds_amount_result(Ok(a), text, decimals),
        Err(ProjectInputsError::SharePrice(e)) => is_funds_amount_error(e, text, decimals),
        Err(_) => false,
    }
}

/// The price of one share; its validation error is kept as it is.
pub fn validate_share_price(input: &str, funds_asset_specs: &FundsAssetSpecs) -> (r: Result<
    FundsAmount,
    ProjectInputsError,
>)
    ensures
        is_project_share_price_result(r, input@, funds_asset_specs.decimals),
{
    let v = validate_funds_amount_input(input, funds_asset_specs);
    match v {
        Ok(a) => Ok(a),
        Err(e) => Err(ProjectInputsError::SharePrice(e)),
    }
}

/// The message for a text of the field `field` out of its bounds.
pub open spec fn text_error_message(text: Seq<char>, min: usize, max: usize, field: Seq<char>) -> Seq<char> {
    let len = byte_len(trim(text));
    if len < min {
        too_short_message(field, min, len)
    } else {
        too_long_message(field, max, len)
    }
}

/// Whether a text is a share count: a `u64` other than 0.
pub open spec fn share_count_valid(text: Seq<char>) -> bool {
    parse_u64_spec(text) matches Ok(n) && n > 0
}

/// The message for a share count that is none.
pub open spec fn share_count_message(text: Seq<char>) -> Seq<char> {
    match parse_u64_spec(text) {
        Err(kind) => int_error_text(kind),
        Ok(_) => "Please enter a valid share count"@,
    }
}

/// Whether a text is a whole percentage from 1 to 100.
pub open spec fn project_investors_share_valid(text: Seq<char>) -> bool {
    parse_u64_spec(text) matches Ok(n) && 1 <= n <= 100
}

/// The message for an investors' share that is none.
pub open spec fn project_investors_share_message(text: Seq<char>) -> Seq<char> {
    match parse_u64_spec(text) {
        Err(kind) => int_error_text(kind),
        Ok(_) => "Investor's share must be a number between 1 and 100"@,
    }
}

/// What `validate_project_inputs` gives: the fields are checked in order
/// (name, description, creator, share count, share price, investors' share,
/// logo URL, social media URL), and the first invalid one gives the error;
/// where all are valid, the project's values.
pub open spec fn is_validate_project_inputs_result(
    r: Result<ValidatedProjectInputs, ProjectInputsError>,
    inputs: CreateProjectFormInputsJs,
    decimals: u32,
) -> bool {
    let name = inputs.project_name@;
    let descr = inputs.project_description@;
    if !text_in_bounds(name, 2, 40) {
        is_message(r, text_error_message(name, 2, 40, "Project name"@))
    } else if !text_in_bounds(descr, 0, 200) {
        is_message(r, text_error_message(descr, 0, 200, "Project description"@))
    } else if !asset_name_cut_ok(trim(name)) {
        is_message(r, asset_name_error(trim(name)))
    } else if address_from_text(inputs.creator@) is Err {
        is_message(r, address_from_text(inputs.creator@)->Err_0)
    } else if !share_count_valid(inputs.share_count@) {
        is_message(r, share_count_message(inputs.share_count@))
    } else if !funds_amount_valid(inputs.share_price@, decimals) {
        r matches Err(ProjectInputsError::SharePrice(e)) && is_funds_amount_error(
            e,
            inputs.share_price@,
            decimals,
        )
    } else if !project_investors_share_valid(inputs.investors_share@) {
        is_message(r, project_investors_share_message(inputs.investors_share@))
    } else if byte_len(inputs.logo_url@) > 100 {
        is_message(r, logo_url_message())
    } else if byte_len(inputs.social_media_url@) > 100 {
        is_message(r, social_media_url_message())
    } else {
        r matches Ok(v) && {
            &&& v.name@ == trim(name)
            &&& v.description@ == trim(descr)
            &&& v.creator.bytes@ == address_from_text(inputs.creator@)->Ok_0
            &&& is_asset_name(v.token_name@, trim(name))
            &&& v.share_count == parse_u64_spec(inputs.share_count@)->Ok_0
            &&& is_funds_amount_result(Ok(v.share_price), inputs.share_price@, decimals)
            &&& v.investors_share == parse_u64_spec(inputs.investors_share@)->Ok_0
            &&& v.logo_url@ == inputs.logo_url@
            &&& v.social_media_url@ == inputs.social_media_url@
        }
    }
}

/// Validates the form that creates a project, field after field; the first
/// invalid field ends the validation.
pub fn validate_project_inputs(
    inputs: &CreateProjectFormInputsJs,
    funds_asset_specs: &FundsAssetSpecs,
) -> (r: Result<ValidatedProjectInputs, ProjectInputsError>)
    ensures
        is_validate_project_inputs_result(r, *inputs, funds_asset_specs.decimals),
{
    let project_name = match validate_project_name(inputs.project_name.as_str()) {
        Ok(v) => v,
        Err(e) => {
            return Err(e);
        },
    };
    let project_description = match validate_project_description(
        inputs.project_description.as_str(),
    ) {
        Ok(v) => v,
        Err(e) => {
            return Err(e);
        },
    };
    let asset_name = match generate_asset_name(project_name.as_str()) {
        Ok(v) => v,
        Err(e) => {
            return Err(ProjectInputsError::Message(e));
        },
    };
    let creator_address = match Address::parse(inputs.creator.as_str()) {
        Ok(a) => a,
        Err(e) => {
            return Err(ProjectInputsError::Message(e));
        },
    };
    let share_count = match validate_share_count(inputs.share_count.as_str()) {
        Ok(v) => v,
        Err(e) => {
            return Err(e);
        },
    };
    let share_price = match validate_share_price(inputs.share_price.as_str(), funds_asset_specs) {
        Ok(v) => v,
        Err(e) => {
            return Err(e);
        },
    };
    let investors_share = match validate_investors_share(inputs.investors_share.as_str()) {
        Ok(v) => v,
        Err(e) => {
            return Err(e);
        },
    };
    let logo_url = match validate_logo_url(inputs.logo_url.as_str()) {
        Ok(v) => v,
        Err(e) => {
            return Err(e);
        },
    };
    let social_media_url = match validate_social_media_url(inputs.social_media_url.as_str()) {
        Ok(v) => v,
        Err(e) => {
            return Err(e);
        },
    };
    Ok(
        ValidatedProjectInputs {
            name: project_name,
            description: project_description,
            creator: creator_address,
            token_name: asset_name,
            share_count,
            share_price,
            investors_share,
            logo_url,
            social_media_url,
        },
    )
}

} // verus!
