//! Settings that the app reads from its environment: the network, the block
//! explorer, the funds asset, the Capi address and the data source.
//! Reading the environment is left to the caller; these functions decide
//! what the values read mean.

use vstd::prelude::*;
use crate::address::{Address, address_from_text};
use crate::number_text::{parse_u64, parse_u64_spec, int_error_message, int_error_text};
use crate::text::{concat_str, err_view};

verus! {

/// The Algorand networks the app runs on.
#[derive(Debug, Clone, Copy, PartialEq, Eq)]
pub enum Network {
    Private,
    SandboxPrivate,
    Test,
}

/// Whether the data comes from the chain or is made up.
#[derive(Debug, Clone, Copy, PartialEq, Eq)]
pub enum DataType {
    Real,
    Mock,
}

/// The id of the asset in which funds are paid.
#[derive(Debug, Clone, Copy, PartialEq, Eq)]
pub struct FundsAssetId(pub u64);

/// The address of the Capi app.
#[derive(Debug, Clone, Copy, PartialEq, Eq)]
pub struct CapiAddress(pub Address);

/// The funds asset and the number of decimals in which its amounts are shown.
#[derive(Debug, Clone, Copy, PartialEq, Eq)]
pub struct FundsAssetSpecs {
    pub id: FundsAssetId,
    pub decimals: u32,
}

/// The explorer in which transactions and accounts are shown.
pub open spec fn explorer_url() -> Seq<char> {
    "https://testnet.algoexplorer.io/"@
}

/// The explorer for a network. There is no explorer for a private network:
/// the test network's explorer is used for all of them.
pub fn explorer_base_url_for_net(net: &Network) -> (url: &'static str)
    ensures
        url@ == explorer_url(),
{
    match net {
        Network::Private | Network::SandboxPrivate | Network::Test => "https://testnet.algoexplorer.io/",
    }
}

/// The explorer of the network the app runs on. It is the same for every
/// network.
pub fn explorer_base_url() -> (url: &'static str)
    ensures
        url@ == explorer_url(),
{
    explorer_base_url_for_net(&Network::Test)
}

/// What the `RUNTIME_ENV` setting means: `"1"` (values given at run time,
/// read from storage) or `"0"` (values fixed at build time); unset is `"0"`;
/// any other value is refused.
pub open spec fn runtime_env_spec(value: Option<Seq<char>>) -> Result<bool, Seq<char>> {
    let v = match value {
        Some(v) => v,
        None => "0"@,
    };
    if v == "1"@ {
        Ok(true)
    } else if v == "0"@ {
        Ok(false)
    } else {
        Err("Invalid RUNTIME_ENV value: "@ + v)
    }
}

fn str_eq(a: &str, b: &str) -> (r: bool)
    ensures
        r == (a@ == b@),
{
    let a = a.to_owned();
    let b = b.to_owned();
    a == b
}

/// Whether the settings are given at run time, from the value of
/// `RUNTIME_ENV` (`None` where it is unset).
pub fn is_runtime_env(value: Option<&str>) -> (r: Result<bool, String>)
    ensures
        err_view(r) == runtime_env_spec(opt_view(value)),
{
    let v = match value {
        Some(v) => v,
        None => "0",
    };
    proof {
        reveal_strlit("0");
        reveal_strlit("1");
    }
    if str_eq(v, "1") {
        Ok(true)
    } else if str_eq(v, "0") {
        Ok(false)
    } else {
        Err(concat_str("Invalid RUNTIME_ENV value: ", v))
    }
}

/// The view of an optional text.
pub open spec fn opt_view(value: Option<&str>) -> Option<Seq<char>> {
    match value {
        Some(v) => Some(v@),
        None => None,
    }
}

/// What the `DATA_TYPE` setting means: `"real"` or `"mock"`; it must be set.
pub open spec fn data_type_spec(value: Option<Seq<char>>) -> Result<DataType, Seq<char>> {
    match value {
        None => Err("Please pass DATA_TYPE"@),
        Some(v) => if v == "real"@ {
            Ok(DataType::Real)
        } else if v == "mock"@ {
            Ok(DataType::Mock)
        } else {
            Err("Invalid data type: "@ + v)
        },
    }
}

/// The data source, from the value of `DATA_TYPE` (`None` where it is unset).
pub fn data_type(value: Option<&str>) -> (r: Result<DataType, String>)
    ensures
        err_view(r) == data_type_spec(opt_view(value)),
{
    match value {
        None => Err("Please pass DATA_TYPE".to_owned()),
        Some(v) => {
            if str_eq(v, "real") {
                Ok(DataType::Real)
            } else if str_eq(v, "mock") {
                Ok(DataType::Mock)
            } else {
                Err(concat_str("Invalid data type: ", v))
            }
        },
    }
}

/// What the funds asset id setting means: it must be set, and be a `u64`;
/// the error of a text that is none is the text of the `ParseIntError`.
pub open spec fn funds_asset_id_spec(value: Option<Seq<char>>) -> Result<FundsAssetId, Seq<char>> {
    match value {
        None => Err("Please pass FUNDS_ASSET_ID"@),
        Some(v) => match parse_u64_spec(v) {
            Ok(id) => Ok(FundsAssetId(id)),
            Err(kind) => Err(int_error_text(kind)),
        },
    }
}

/// The funds asset id, from the value of `FUNDS_ASSET_ID` as read from the
/// place that `is_runtime_env` selects (`None` where it is unset).
pub fn funds_asset_id(value: Option<&str>) -> (r: Result<FundsAssetId, String>)
    ensures
        err_view(r) == funds_asset_id_spec(opt_view(value)),
{
    match value {
        None => Err("Please pass FUNDS_ASSET_ID".to_owned()),
        Some(v) => match parse_u64(v) {
            Ok(id) => Ok(FundsAssetId(id)),
            Err(kind) => Err(int_error_message(kind)),
        },
    }
}

/// The funds asset that the setting gives: its id, and 6 decimals.
pub open spec fn funds_asset_specs_spec(value: Option<Seq<char>>) -> Result<FundsAssetSpecs, Seq<char>> {
    match funds_asset_id_spec(value) {
        Ok(id) => Ok(FundsAssetSpecs { id, decimals: 6 }),
        Err(e) => Err(e),
    }
}

/// The funds asset: its id, from the value of `FUNDS_ASSET_ID`, and its 6
/// decimals.
pub fn funds_asset_specs(value: Option<&str>) -> (r: Result<FundsAssetSpecs, String>)
    ensures
        err_view(r) == funds_asset_specs_spec(opt_view(value)),
{
    match funds_asset_id(value) {
        Ok(id) => Ok(FundsAssetSpecs { id, decimals: 6 }),
        Err(e) => Err(e),
    }
}

/// What the Capi address setting means: it must be set, and be an address
/// text; the error of a text that is none is the text that `algonaut` gives.
pub open spec fn capi_address_spec(value: Option<Seq<char>>) -> Result<Seq<u8>, Seq<char>> {
    match value {
        None => Err("Please pass CAPI_ADDRESS"@),
        Some(v) => address_from_text(v),
    }
}

/// The Capi address, from the value of `CAPI_ADDRESS` as read from the place
/// that `is_runtime_env` selects (`None` where it is unset).
pub fn capi_address(value: Option<&str>) -> (r: Result<CapiAddress, String>)
    ensures
        capi_address_spec(opt_view(value)) == match r {
            Ok(a) => Ok(a.0.bytes@),
            Err(e) => Err(e@),
        },
{
    match value {
        None => Err("Please pass CAPI_ADDRESS".to_owned()),
        Some(v) => match Address::parse(v) {
            Ok(a) => Ok(CapiAddress(a)),
            Err(e) => Err(e),
        },
    }
}

} // verus!
