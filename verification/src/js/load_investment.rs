//! What an investor is shown of an investment in a DAO: the shares, the part
//! of the income they entitle to, and the dividend already claimed and still
//! claimable.

use vstd::prelude::*;
use crate::decimal::{
    base_units_to_display_units_str, decimal_product, decimal_quotient, decimal_text,
    display_units_text, u64_parts, Decimal,
};
use crate::dependencies::FundsAssetSpecs;
use crate::number_text::{dec_digits, u64_to_string};

verus! {

/// What reading an investor's local state in a DAO's app gave: the locked
/// shares and the dividend claimed so far; that the investor is not opted
/// in (no shares locked, nothing claimed); or the text of another error.
pub enum InvestorStateLoad {
    State { shares: u64, claimed: u64 },
    NotOptedIn,
    Failed(String),
}

/// The locked shares and the claimed dividend that a state load gives: the
/// state's values, zero for an investor that is not opted in, the error
/// otherwise.
pub fn investor_shares_and_claimed(state: InvestorStateLoad) -> (r: Result<(u64, u64), String>)
    ensures
        match state {
            InvestorStateLoad::State { shares, claimed } => r == Ok::<(u64, u64), String>(
                (shares, claimed),
            ),
            InvestorStateLoad::NotOptedIn => r == Ok::<(u64, u64), String>((0u64, 0u64)),
            InvestorStateLoad::Failed(e) => r matches Err(m) && m@ == e@,
        },
{
    match state {
        InvestorStateLoad::State { shares, claimed } => Ok((shares, claimed)),
        InvestorStateLoad::NotOptedIn => Ok((0, 0)),
        InvestorStateLoad::Failed(e) => Err(e),
    }
}

/// An investment as the frontend shows it. The investor's percentage is
/// given as a number only.
#[derive(Debug, Clone, PartialEq, Eq)]
pub struct LoadInvestmentResJs {
    pub investor_shares_count: String,
    /// Relative to the part of the shares reserved to investors.
    pub investor_percentage_number: String,
    /// Relative to all of the DAO's income.
    pub investor_percentage_relative_to_total_number: String,
    pub investors_share_number: String,
    pub investor_already_retrieved_amount: String,
    pub investor_claimable_dividend: String,
    pub investor_claimable_dividend_microalgos: String,
}

/// The error where a division of the percentages gives nothing.
pub open spec fn dividing_failed_message() -> Seq<char> {
    "Unexpected: dividing returned None"@
}

/// The investor's percentage: shares over supply.
pub open spec fn investor_percentage(shares: u64, supply: u64) -> Option<(i128, bool, u32)> {
    decimal_quotient(u64_parts(shares), u64_parts(supply))
}

/// The investors' part as a fraction: the part over 100.
pub open spec fn investors_share_normalized(investors_part: u64) -> Option<(i128, bool, u32)> {
    decimal_quotient(u64_parts(investors_part), u64_parts(100))
}

/// Whether `r` is the view of the investment: the shares and claimed
/// dividend from the state (zero where not opted in), the investor's
/// percentage (shares over supply), the investors' share as a fraction (the
/// part over 100), their product, and the amounts in display units; the
/// state's error, or the division error where a division or the product
/// gives nothing.
pub open spec fn is_investment_view(
    r: Result<LoadInvestmentResJs, String>,
    state: InvestorStateLoad,
    share_supply: u64,
    investors_part: u64,
    claimable: u64,
    decimals: u32,
) -> bool {
    match state {
        InvestorStateLoad::Failed(e) => r matches Err(m) && m@ == e@,
        _ => {
            let (shares, claimed) = match state {
                InvestorStateLoad::State { shares, claimed } => (shares, claimed),
                _ => (0u64, 0u64),
            };
            let pct = investor_percentage(shares, share_supply);
            let norm = investors_share_normalized(investors_part);
            if pct is None || norm is None || decimal_product(pct->Some_0, norm->Some_0) is None {
                r matches Err(m) && m@ == dividing_failed_message()
            } else {
                let p = pct->Some_0;
                let n = norm->Some_0;
                let rel = decimal_product(p, n)->Some_0;
                r matches Ok(js) && {
                    &&& js.investor_shares_count@ == dec_digits(shares as nat)
                    &&& js.investor_percentage_number@ == decimal_text(p.0, p.1, p.2)
                    &&& js.investor_percentage_relative_to_total_number@ == decimal_text(
                        rel.0,
                        rel.1,
                        rel.2,
                    )
                    &&& js.investors_share_number@ == decimal_text(n.0, n.1, n.2)
                    &&& js.investor_already_retrieved_amount@ == display_units_text(
                        claimed,
                        decimals,
                    )
                    &&& js.investor_claimable_dividend@ == display_units_text(claimable, decimals)
                    &&& js.investor_claimable_dividend_microalgos@ == dec_digits(claimable as nat)
                }
            }
        },
    }
}

/// The view of an investor's investment, from the state load, the DAO's
/// share supply and investors' part, and the claimable dividend.
pub fn investment_view(
    state: InvestorStateLoad,
    share_supply: u64,
    investors_part: u64,
    claimable: u64,
    funds_asset_specs: &FundsAssetSpecs,
) -> (r: Result<LoadInvestmentResJs, String>)
    requires
        share_supply > 0,
        funds_asset_specs.decimals <= 28,
    ensures
        is_investment_view(r, state, share_supply, investors_part, claimable, funds_asset_specs.decimals),
{
    let (shares, claimed) = match investor_shares_and_claimed(state) {
        Ok(sc) => sc,
        Err(e) => {
            return Err(e);
        },
    };
    let investor_percentage = match Decimal::from_u64(shares).checked_div(&Decimal::from_u64(share_supply)) {
        Some(d) => d,
        None => {
            return Err("Unexpected: dividing returned None".to_owned());
        },
    };
    let normalized = match Decimal::from_u64(investors_part).checked_div(&Decimal::from_u64(100)) {
        Some(d) => d,
        None => {
            return Err("Unexpected: dividing returned None".to_owned());
        },
    };
    let relative = match investor_percentage.checked_mul(&normalized) {
        Some(d) => d,
        None => {
            return Err("Unexpected: dividing returned None".to_owned());
        },
    };
    Ok(LoadInvestmentResJs {
        investor_shares_count: u64_to_string(shares),
        investor_percentage_number: investor_percentage.to_text(),
        investor_percentage_relative_to_total_number: relative.to_text(),
        investors_share_number: normalized.to_text(),
        investor_already_retrieved_amount: base_units_to_display_units_str(claimed, funds_asset_specs),
        investor_claimable_dividend: base_units_to_display_units_str(claimable, funds_asset_specs),
        investor_claimable_dividend_microalgos: u64_to_string(claimable),
    })
}

} // verus!
