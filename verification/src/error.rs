//! The errors that the frontend functions return to JavaScript.

use vstd::prelude::*;
use crate::inputs_validation::ValidationError;
use crate::js::create_dao::{CreateAssetsInputErrors, ValidateDaoInputsError};
use crate::number_text::{IntErrorKind, int_error_message, int_error_text};

verus! {

/// All errors that can be returned to JavaScript ("Fr": frontend).
#[derive(Debug, Clone)]
pub enum FrError {
    NotEnoughAlgos,
    NotEnoughFundsAsset { to_buy: String },
    Validation(ValidationError),
    CreateDaoValidations(CreateAssetsInputErrors),
    /// The errors of several fields, each with the field's name.
    Validations(Vec<(String, ValidationError)>),
    /// What cannot be explained to users; the text is for developers.
    Internal(String),
    /// A last resort: the text is shown as it is.
    Msg(String),
}

impl From<ValidationError> for FrError {
    fn from(e: ValidationError) -> (r: FrError) {
        FrError::Validation(e)
    }
}

impl vstd::std_specs::convert::FromSpecImpl<ValidationError> for FrError {
    open spec fn obeys_from_spec() -> bool {
        true
    }

    open spec fn from_spec(e: ValidationError) -> FrError {
        FrError::Validation(e)
    }
}

/// Whether `r` is the frontend error for the refused form of a DAO: the
/// field errors as they are; an error of one field under its name; an
/// investors' part above the supply as the validation error that says so;
/// any other message as it is.
pub open spec fn is_dao_inputs_fr_error(r: FrError, e: ValidateDaoInputsError) -> bool {
    match e {
        ValidateDaoInputsError::AllFieldsValidation(errors) => r == FrError::CreateDaoValidations(
            errors,
        ),
        ValidateDaoInputsError::InvestorsPartIsGreaterThanShareSupply => r == FrError::Validation(
            ValidationError::SharesForInvestorsGreaterThanSupply,
        ),
        ValidateDaoInputsError::SingleFieldValidation { field, error } => match r {
            FrError::Validations(v) => v@ == seq![(field, error)],
            _ => false,
        },
        ValidateDaoInputsError::NonValidation(msg) => r == FrError::Msg(msg),
    }
}

impl FrError {
    /// The frontend error for the refused form of a DAO.
    pub fn from_dao_inputs_error(e: ValidateDaoInputsError) -> (r: FrError)
        ensures
            is_dao_inputs_fr_error(r, e),
    {
        match e {
            ValidateDaoInputsError::AllFieldsValidation(errors) => FrError::CreateDaoValidations(
                errors,
            ),
            ValidateDaoInputsError::InvestorsPartIsGreaterThanShareSupply => FrError::Validation(
                ValidationError::SharesForInvestorsGreaterThanSupply,
            ),
            ValidateDaoInputsError::SingleFieldValidation { field, error } => {
                let mut v: Vec<(String, ValidationError)> = Vec::new();
                v.push((field, error));
                FrError::Validations(v)
            },
            ValidateDaoInputsError::NonValidation(msg) => FrError::Msg(msg),
        }
    }

    /// The frontend error for an integer that did not parse: the parser's
    /// message.
    pub fn from_parse_int_error(kind: IntErrorKind) -> (r: FrError)
        ensures
            r matches FrError::Msg(m) && m@ == int_error_text(kind),
    {
        FrError::Msg(int_error_message(kind))
    }
}

} // verus!
