use capi_wasm::decimal::Decimal;
use capi_wasm::dependencies::{FundsAssetId, FundsAssetSpecs};
use capi_wasm::js::load_investment::{investment_view, investor_shares_and_claimed, InvestorStateLoad};
use capi_wasm::js::opt_in_to_app::opt_in_plan;
use capi_wasm::js::queries::my_shares::my_shares;
use capi_wasm::address::Address;
use capi_wasm::js::queries::shares_distribution::{not_owned_shares_holdings, shares_distribution_lines, ShareHolding};
use capi_wasm::js::view_dao::investors_share_text;

fn specs() -> FundsAssetSpecs {
    FundsAssetSpecs { id: FundsAssetId(1), decimals: 6 }
}

fn dec(m: i128, scale: u32) -> Decimal {
    Decimal { mantissa: m, negative: m < 0, scale }
}

#[test]
fn decimals_divide_and_multiply_as_rust_decimal_does() {
    let q = dec(1, 0).checked_div(&dec(4, 0)).unwrap();
    assert_eq!(q.to_text(), "0.25");
    assert_eq!(dec(1, 0).checked_div(&dec(0, 0)), None);
    let p = dec(25, 2).checked_mul(&dec(4, 1)).unwrap();
    assert_eq!(p.to_text(), "0.100");
    assert_eq!(Decimal::from_u64(7).to_text(), "7");
}

#[test]
fn investor_states() {
    assert_eq!(investor_shares_and_claimed(InvestorStateLoad::State { shares: 5, claimed: 2 }), Ok((5, 2)));
    assert_eq!(investor_shares_and_claimed(InvestorStateLoad::NotOptedIn), Ok((0, 0)));
    assert_eq!(
        investor_shares_and_claimed(InvestorStateLoad::Failed("boom".to_owned())),
        Err("boom".to_owned())
    );
}

#[test]
fn investment_view_of_an_investor() {
    let js = investment_view(
        InvestorStateLoad::State { shares: 250, claimed: 1_500_000 },
        1000,
        40,
        2_000_000,
        &specs(),
    )
    .unwrap();
    assert_eq!(js.investor_shares_count, "250");
    let pct = rust_decimal::Decimal::from(250u64) / rust_decimal::Decimal::from(1000u64);
    let norm = rust_decimal::Decimal::from(40u64) / rust_decimal::Decimal::from(100u64);
    assert_eq!(js.investor_percentage_number, pct.to_string());
    assert_eq!(js.investors_share_number, norm.to_string());
    assert_eq!(js.investor_percentage_relative_to_total_number, (pct * norm).to_string());
    assert_eq!(js.investor_already_retrieved_amount, "1.500000");
    assert_eq!(js.investor_claimable_dividend, "2.000000");
    assert_eq!(js.investor_claimable_dividend_microalgos, "2000000");
}

#[test]
fn investment_view_of_an_investor_not_opted_in() {
    let js = investment_view(InvestorStateLoad::NotOptedIn, 1000, 40, 0, &specs()).unwrap();
    assert_eq!(js.investor_shares_count, "0");
    assert_eq!(js.investor_percentage_number, "0");
    assert_eq!(js.investor_already_retrieved_amount, "0.000000");
    assert_eq!(
        investment_view(InvestorStateLoad::Failed("no state".to_owned()), 1000, 40, 0, &specs()),
        Err("no state".to_owned())
    );
}

#[test]
fn my_shares_from_the_loads() {
    let r = my_shares(InvestorStateLoad::NotOptedIn, Ok(7)).unwrap();
    assert_eq!(r.locked, "0");
    assert_eq!(r.free, "7");
    assert_eq!(r.total, "7");
    let r = my_shares(InvestorStateLoad::State { shares: 3, claimed: 0 }, Ok(7)).unwrap();
    assert_eq!(r.total, "10");
    assert_eq!(my_shares(InvestorStateLoad::Failed("x".to_owned()), Ok(7)), Err("x".to_owned()));
    assert_eq!(my_shares(InvestorStateLoad::NotOptedIn, Err("y".to_owned())), Err("y".to_owned()));
}

#[test]
fn the_not_owned_line() {
    let line = not_owned_shares_holdings(&vec![30, 20], 100).unwrap();
    assert_eq!(line.amount, "50");
    assert_eq!(
        line.percentage_number,
        (rust_decimal::Decimal::from(50u64) / rust_decimal::Decimal::from(100u64)).to_string()
    );
    assert_eq!(line.label, "Not owned");
    assert_eq!(line.type_, "not_owned");
    assert_eq!(line.address, "");
    assert_eq!(line.address_browser_link, "");
    assert_eq!(
        not_owned_shares_holdings(&vec![], 0),
        Err("not_owned_amount: 0 / supply: 0 failed".to_owned())
    );
}

#[test]
fn investors_share_is_shown_in_percent() {
    assert_eq!(investors_share_text(40), "40 %");
}

#[test]
fn opt_ins_only_where_not_opted_in() {
    let slots = vec!["11".to_owned(), "12".to_owned()];
    assert_eq!(opt_in_plan(&[3, 5], 5, &slots), Ok(None));
    assert_eq!(opt_in_plan(&[3], 5, &slots), Ok(Some(vec![5, 11, 12])));
    assert_eq!(
        opt_in_plan(&[], 5, &vec!["x".to_owned()]),
        Err("invalid digit found in string".to_owned())
    );
}

#[test]
fn the_distribution_lists_holders_then_the_not_owned_line() {
    let holders = vec![
        ShareHolding { address: Address { bytes: [0u8; 32] }, amount: 30, percentage: dec(30, 2) },
        ShareHolding { address: Address { bytes: [1u8; 32] }, amount: 20, percentage: dec(20, 2) },
    ];
    let lines = shares_distribution_lines(&holders, 100).unwrap();
    assert_eq!(lines.len(), 3);
    assert_eq!(lines[0].address, "AAAAAAAAAAAAAAAAAAAAAAAAAAAAAAAAAAAAAAAAAAAAAAAAAAAAY5HFKQ");
    assert_eq!(lines[0].label, "AAA...FKQ");
    assert_eq!(
        lines[0].address_browser_link,
        "https://testnet.algoexplorer.io/address/AAAAAAAAAAAAAAAAAAAAAAAAAAAAAAAAAAAAAAAAAAAAAAAAAAAAY5HFKQ"
    );
    assert_eq!(lines[0].amount, "30");
    assert_eq!(lines[0].percentage_number, "0.30");
    assert_eq!(lines[0].type_, "holder");
    assert_eq!(lines[1].amount, "20");
    assert_eq!(lines[2].type_, "not_owned");
    assert_eq!(lines[2].amount, "50");
    assert!(shares_distribution_lines(&vec![], 0).is_err());
}
