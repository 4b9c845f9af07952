//! Input validation, formatting and decision logic of the Capi DAO web
//! frontend core.

pub mod text;
pub mod number_text;
pub mod inputs_validation;
pub mod js;
pub mod address;
pub mod dependencies;
pub mod decimal;
pub mod error;
