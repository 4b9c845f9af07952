use capi_wasm::address::Address;
use capi_wasm::error::FrError;
use capi_wasm::inputs_validation::ValidationError;
use capi_wasm::js::buy_shares::validate_share_count;
use capi_wasm::js::check_for_updates::{check_for_updates, Version};
use capi_wasm::js::create_dao::{CreateAssetsInputErrors, ShareAmount, ValidateDaoInputsError};
use capi_wasm::js::load_pending_votes::{pending_vote_slot_count, SlotVoteState};
use capi_wasm::js::opt_in_to_app::{checked_optins, is_opted_in, parse_slot_ids};
use capi_wasm::js::update_data::{parse_addr, updatable_dao_data, UpdateDataParJs};
use capi_wasm::number_text::IntErrorKind;

const ZERO_ADDRESS: &str = "AAAAAAAAAAAAAAAAAAAAAAAAAAAAAAAAAAAAAAAAAAAAAAAAAAAAY5HFKQ";

#[test]
fn updates_are_offered_for_newer_versions_only() {
    let r = check_for_updates(Version(1), Version(1), Version(2), Version(1));
    assert_eq!(r.current_approval_version, "1");
    assert_eq!(r.current_clear_version, "1");
    let data = r.update_data.unwrap();
    assert_eq!(data.new_approval_version, "2");
    assert_eq!(data.new_clear_version, "1");
    assert_eq!(check_for_updates(Version(2), Version(1), Version(2), Version(1)).update_data, None);
    assert_eq!(check_for_updates(Version(3), Version(3), Version(2), Version(1)).update_data, None);
}

#[test]
fn share_count_to_buy() {
    assert_eq!(validate_share_count("3"), Ok(ShareAmount(3)));
    assert_eq!(validate_share_count("0"), Err("Please enter a valid share count".to_owned()));
    assert_eq!(validate_share_count("x"), Err("invalid digit found in string".to_owned()));
}

#[test]
fn opted_in_apps() {
    assert!(is_opted_in(&[1, 5, 9], 5));
    assert!(!is_opted_in(&[1, 5, 9], 6));
    assert!(!is_opted_in(&[], 1));
}

#[test]
fn pending_votes_are_active_unvoted_slots() {
    let slot = |a, v| SlotVoteState { has_active_request: a, did_vote_in_current_round: v };
    assert_eq!(
        pending_vote_slot_count(&[slot(true, false), slot(true, true), slot(false, false), slot(true, false)]),
        2
    );
    assert_eq!(pending_vote_slot_count(&[]), 0);
}

fn update_pars() -> UpdateDataParJs {
    UpdateDataParJs {
        dao_id: "1".to_owned(),
        owner: ZERO_ADDRESS.to_owned(),
        central_escrow: ZERO_ADDRESS.to_owned(),
        customer_escrow: ZERO_ADDRESS.to_owned(),
        investing_escrow: ZERO_ADDRESS.to_owned(),
        locking_escrow: ZERO_ADDRESS.to_owned(),
        project_name: "Name".to_owned(),
        project_desc: "Desc".to_owned(),
        share_price: "1000".to_owned(),
        logo_url: "l".to_owned(),
        social_media_url: "s".to_owned(),
    }
}

#[test]
fn updatable_data_is_parsed_from_the_form() {
    let owner = Address { bytes: [1u8; 32] };
    let d = updatable_dao_data(update_pars(), owner).unwrap();
    assert_eq!(d.central_escrow, Address { bytes: [0u8; 32] });
    assert_eq!(d.share_price, 1000);
    assert_eq!(d.project_name, "Name");
    assert_eq!(d.owner, owner);
    let mut bad_price = update_pars();
    bad_price.share_price = "1.5".to_owned();
    assert_eq!(
        updatable_dao_data(bad_price, owner),
        Err("invalid digit found in string".to_owned())
    );
    let mut bad_escrow = update_pars();
    bad_escrow.locking_escrow = "nope".to_owned();
    bad_escrow.share_price = "x".to_owned();
    assert_eq!(
        updatable_dao_data(bad_escrow, owner),
        Err(parse_addr("nope".to_owned()).unwrap_err())
    );
}

#[test]
fn frontend_errors() {
    assert!(matches!(
        FrError::from(ValidationError::Address),
        FrError::Validation(ValidationError::Address)
    ));
    assert!(matches!(
        FrError::from_parse_int_error(IntErrorKind::Empty),
        FrError::Msg(m) if m == "cannot parse integer from empty string"
    ));
    assert!(matches!(
        FrError::from_dao_inputs_error(ValidateDaoInputsError::NonValidation("m".to_owned())),
        FrError::Msg(m) if m == "m"
    ));
    assert!(matches!(
        FrError::from_dao_inputs_error(ValidateDaoInputsError::InvestorsPartIsGreaterThanShareSupply),
        FrError::Validation(ValidationError::SharesForInvestorsGreaterThanSupply)
    ));
    match FrError::from_dao_inputs_error(ValidateDaoInputsError::SingleFieldValidation {
        field: "dao_name".to_owned(),
        error: ValidationError::Empty,
    }) {
        FrError::Validations(v) => assert_eq!(v, vec![("dao_name".to_owned(), ValidationError::Empty)]),
        other => panic!("unexpected: {:?}", other),
    }
    let errors = CreateAssetsInputErrors {
        name: Some(ValidationError::Empty),
        description: None,
        creator: None,
        share_supply: None,
        share_price: None,
        investors_share: None,
        logo_url: None,
        social_media_url: None,
    };
    assert!(matches!(
        FrError::from_dao_inputs_error(ValidateDaoInputsError::AllFieldsValidation(errors)),
        FrError::CreateDaoValidations(e) if e.name == Some(ValidationError::Empty)
    ));
}

#[test]
fn slot_ids_are_parsed_in_order() {
    let ids = vec!["5".to_owned(), "17".to_owned()];
    assert_eq!(parse_slot_ids(&ids), Ok(vec![5, 17]));
    let bad = vec!["5".to_owned(), "x".to_owned(), "".to_owned()];
    assert_eq!(parse_slot_ids(&bad), Err("invalid digit found in string".to_owned()));
    assert_eq!(parse_slot_ids(&vec![]), Ok(vec![]));
}

#[test]
fn generated_optins_are_one_per_app() {
    assert_eq!(checked_optins(vec!['a', 'b', 'c'], 2), Ok(vec!['a', 'b', 'c']));
    assert_eq!(
        checked_optins(vec!['a', 'b'], 2),
        Err("Invalid generated app optins count: 2".to_owned())
    );
}
