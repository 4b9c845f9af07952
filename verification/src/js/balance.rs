//! The balance of an account, as the frontend shows it.

use vstd::prelude::*;
use crate::decimal::{algos_text, base_units_to_display_units_str, display_units_text, microalgos_to_algos_str};
use crate::dependencies::FundsAssetSpecs;

verus! {

/// The balances of an account: in algos and in the funds asset.
#[derive(Debug, Clone, PartialEq, Eq)]
pub struct BalanceResJs {
    pub balance_algos: String,
    pub balance_funds_asset: String,
}

/// The balances of an account, from its microalgos and its holding of the
/// funds asset (in base units), in display units.
pub fn balance_res(balance: u64, funds_asset_holdings: u64, funds_asset_specs: &FundsAssetSpecs) -> (r:
    BalanceResJs)
    requires
        funds_asset_specs.decimals <= 28,
    ensures
        r.balance_algos@ == algos_text(balance),
        r.balance_funds_asset@ == display_units_text(
            funds_asset_holdings,
            funds_asset_specs.decimals,
        ),
{
    BalanceResJs {
        balance_algos: microalgos_to_algos_str(balance),
        balance_funds_asset: base_units_to_display_units_str(
            funds_asset_holdings,
            funds_asset_specs,
        ),
    }
}

} // verus!
