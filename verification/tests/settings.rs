use capi_wasm::address::Address;
use capi_wasm::dependencies::{
    capi_address, data_type, funds_asset_id, funds_asset_specs, is_runtime_env, CapiAddress,
    DataType, FundsAssetId, FundsAssetSpecs,
};

#[test]
fn runtime_env_setting() {
    assert_eq!(is_runtime_env(None), Ok(false));
    assert_eq!(is_runtime_env(Some("0")), Ok(false));
    assert_eq!(is_runtime_env(Some("1")), Ok(true));
    assert_eq!(is_runtime_env(Some("yes")), Err("Invalid RUNTIME_ENV value: yes".to_owned()));
}

#[test]
fn data_type_setting() {
    assert_eq!(data_type(Some("real")), Ok(DataType::Real));
    assert_eq!(data_type(Some("mock")), Ok(DataType::Mock));
    assert_eq!(data_type(Some("other")), Err("Invalid data type: other".to_owned()));
    assert_eq!(data_type(None), Err("Please pass DATA_TYPE".to_owned()));
}

#[test]
fn funds_asset_settings() {
    assert_eq!(funds_asset_id(Some("75")), Ok(FundsAssetId(75)));
    assert_eq!(funds_asset_id(None), Err("Please pass FUNDS_ASSET_ID".to_owned()));
    assert_eq!(funds_asset_id(Some("x")), Err("invalid digit found in string".to_owned()));
    assert_eq!(
        funds_asset_specs(Some("75")),
        Ok(FundsAssetSpecs { id: FundsAssetId(75), decimals: 6 })
    );
}

#[test]
fn capi_address_setting() {
    assert_eq!(
        capi_address(Some("AAAAAAAAAAAAAAAAAAAAAAAAAAAAAAAAAAAAAAAAAAAAAAAAAAAAY5HFKQ")),
        Ok(CapiAddress(Address { bytes: [0u8; 32] }))
    );
    assert_eq!(capi_address(None), Err("Please pass CAPI_ADDRESS".to_owned()));
    assert!(capi_address(Some("nope")).is_err());
}
