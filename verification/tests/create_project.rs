use capi_wasm::dependencies::{FundsAssetId, FundsAssetSpecs};
use capi_wasm::inputs_validation::ValidationError;
use capi_wasm::js::create_dao::FundsAmount;
use capi_wasm::js::create_project::{
    validate_investors_share, validate_logo_url, validate_project_description,
    validate_project_inputs, validate_project_name, validate_share_count, validate_share_price,
    validate_social_media_url, validate_text_min_max_length, CreateProjectFormInputsJs,
    ProjectInputsError,
};

const ZERO_ADDRESS: &str = "AAAAAAAAAAAAAAAAAAAAAAAAAAAAAAAAAAAAAAAAAAAAAAAAAAAAY5HFKQ";

fn msg<T>(s: &str) -> Result<T, ProjectInputsError> {
    Err(ProjectInputsError::Message(s.to_owned()))
}

fn specs() -> FundsAssetSpecs {
    FundsAssetSpecs { id: FundsAssetId(5), decimals: 6 }
}

fn inputs() -> CreateProjectFormInputsJs {
    CreateProjectFormInputsJs {
        creator: ZERO_ADDRESS.to_owned(),
        project_name: " Project X ".to_owned(),
        project_description: "About it".to_owned(),
        share_count: "500".to_owned(),
        share_price: "0.25".to_owned(),
        investors_share: "30".to_owned(),
        logo_url: "l".to_owned(),
        social_media_url: "s".to_owned(),
    }
}

#[test]
fn text_messages_name_the_field() {
    assert_eq!(validate_text_min_max_length(" ab ", 2, 3, "Field"), Ok("ab".to_owned()));
    assert_eq!(
        validate_text_min_max_length("a", 2, 3, "Field"),
        msg("Field must have at least 2 characters. Current: 1")
    );
    assert_eq!(
        validate_text_min_max_length("abcd", 2, 3, "Field"),
        msg("Field must not have more than 3 characters. Current: 4")
    );
    assert_eq!(
        validate_project_name("p"),
        msg("Project name must have at least 2 characters. Current: 1")
    );
    assert_eq!(
        validate_project_description(&"d".repeat(201)),
        msg("Project description must not have more than 200 characters. Current: 201")
    );
}

#[test]
fn share_count_and_investors_share() {
    assert_eq!(validate_share_count("12"), Ok(12));
    assert_eq!(validate_share_count("0"), msg("Please enter a valid share count"));
    assert_eq!(validate_share_count("x"), msg("invalid digit found in string"));
    assert_eq!(validate_share_count(""), msg("cannot parse integer from empty string"));
    assert_eq!(validate_investors_share("100"), Ok(100));
    assert_eq!(validate_investors_share("1"), Ok(1));
    assert_eq!(
        validate_investors_share("0"),
        msg("Investor's share must be a number between 1 and 100")
    );
    assert_eq!(
        validate_investors_share("101"),
        msg("Investor's share must be a number between 1 and 100")
    );
}

#[test]
fn url_messages() {
    assert_eq!(validate_logo_url("x"), Ok("x".to_owned()));
    assert_eq!(
        validate_logo_url(&"x".repeat(101)),
        msg("Logo URL must not have more than 100 characters. Consider using a URL shortener.")
    );
    assert_eq!(
        validate_social_media_url(&"x".repeat(101)),
        msg("Social media URL must not have more than 100 characters. Consider using a URL shortener.")
    );
}

#[test]
fn share_price_keeps_its_validation_error() {
    assert_eq!(validate_share_price("0.25", &specs()), Ok(FundsAmount(250_000)));
    assert_eq!(
        validate_share_price("x", &specs()),
        Err(ProjectInputsError::SharePrice(ValidationError::NotADecimal))
    );
}

#[test]
fn validates_a_whole_project_form() {
    let v = validate_project_inputs(&inputs(), &specs()).unwrap();
    assert_eq!(v.name, "Project X");
    assert_eq!(v.description, "About it");
    assert_eq!(v.token_name, "Project");
    assert_eq!(v.share_count, 500);
    assert_eq!(v.share_price, FundsAmount(250_000));
    assert_eq!(v.investors_share, 30);
    assert_eq!(v.creator.bytes, [0u8; 32]);
}

#[test]
fn the_first_invalid_field_ends_the_project_validation() {
    let mut i = inputs();
    i.share_count = "0".to_owned();
    i.investors_share = "500".to_owned();
    assert_eq!(validate_project_inputs(&i, &specs()), msg("Please enter a valid share count"));
    let mut j = inputs();
    j.creator = "bad".to_owned();
    assert!(matches!(
        validate_project_inputs(&j, &specs()),
        Err(ProjectInputsError::Message(_))
    ));
}
