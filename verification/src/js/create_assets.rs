//! The field errors of the DAO form, in the form the frontend reads.

use vstd::prelude::*;
use crate::inputs_validation::ValidationError;
use crate::js::create_dao::CreateAssetsInputErrors;
use crate::js::inputs_validation_js::{ValidationErrorJs, is_validation_error_js, to_validation_error_js};

verus! {

/// The errors to show next to the fields of the DAO form, each in the form
/// the frontend reads; `type_identifier` tells the frontend what it got.
#[derive(Debug, Clone, PartialEq, Eq)]
pub struct CreateAssetsInputErrorsJs {
    pub type_identifier: String,
    pub name: Option<ValidationErrorJs>,
    pub description: Option<ValidationErrorJs>,
    pub creator: Option<ValidationErrorJs>,
    pub share_supply: Option<ValidationErrorJs>,
    pub share_price: Option<ValidationErrorJs>,
    pub investors_share: Option<ValidationErrorJs>,
    pub logo_url: Option<ValidationErrorJs>,
    pub social_media_url: Option<ValidationErrorJs>,
}

/// Whether `js` is the frontend form of the optional error `error`.
pub open spec fn is_optional_error_js(js: Option<ValidationErrorJs>, error: Option<ValidationError>) -> bool {
    match (js, error) {
        (None, None) => true,
        (Some(j), Some(e)) => is_validation_error_js(j, e),
        _ => false,
    }
}

fn optional_error_js(error: Option<ValidationError>) -> (js: Option<ValidationErrorJs>)
    ensures
        is_optional_error_js(js, error),
{
    match error {
        Some(e) => Some(to_validation_error_js(e)),
        None => None,
    }
}

/// The frontend form of the field errors of the DAO form: tagged
/// `input_errors`, each field's error converted, and no error where the
/// field has none.
pub fn to_create_assets_input_errors_js(e: CreateAssetsInputErrors) -> (js: CreateAssetsInputErrorsJs)
    ensures
        js.type_identifier@ == "input_errors"@,
        is_optional_error_js(js.name, e.name),
        is_optional_error_js(js.description, e.description),
        is_optional_error_js(js.creator, e.creator),
        is_optional_error_js(js.share_supply, e.share_supply),
        is_optional_error_js(js.share_price, e.share_price),
        is_optional_error_js(js.investors_share, e.investors_share),
        is_optional_error_js(js.logo_url, e.logo_url),
        is_optional_error_js(js.social_media_url, e.social_media_url),
{
    CreateAssetsInputErrorsJs {
        type_identifier: "input_errors".to_owned(),
        name: optional_error_js(e.name),
        description: optional_error_js(e.description),
        creator: optional_error_js(e.creator),
        share_supply: optional_error_js(e.share_supply),
        share_price: optional_error_js(e.share_price),
        investors_share: optional_error_js(e.investors_share),
        logo_url: optional_error_js(e.logo_url),
        social_media_url: optional_error_js(e.social_media_url),
    }
}

} // verus!
