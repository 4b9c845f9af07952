use capi_wasm::js::funds_activity::{load_funds_activity, FundsActivityEntry, FundsActivityEntryType};
use capi_wasm::js::view_dao::{shares_available, AssetHolding};

const JAN_15_2022: i64 = 1642204800;
const FEB_1_2022: i64 = 1643673600;

fn rfc2822(ts: i64) -> String {
    chrono::DateTime::from_timestamp(ts, 0).unwrap().to_rfc2822()
}

fn entry(amount: u64, income: bool, date: i64, tx: &str) -> FundsActivityEntry {
    let type_ = if income { FundsActivityEntryType::Income } else { FundsActivityEntryType::Spending };
    FundsActivityEntry::new(amount, type_, format!("d{tx}"), date, tx.to_owned()).unwrap()
}

#[test]
fn funds_activity_is_listed_newest_first() {
    let view = load_funds_activity(vec![
        entry(1_000_000, true, JAN_15_2022, "A"),
        entry(2_500_000, false, FEB_1_2022, "B"),
        entry(3, true, JAN_15_2022, "C"),
    ]);
    let ids: Vec<&str> = view.iter().map(|v| v.tx_id.as_str()).collect();
    assert_eq!(ids, vec!["B", "A", "C"]);
    assert_eq!(view[0].amount, "2.500000");
    assert_eq!(view[0].is_income, "false");
    assert_eq!(view[0].description, "dB");
    assert_eq!(view[0].date, rfc2822(FEB_1_2022));
    assert_eq!(view[0].tx_link, "https://testnet.algoexplorer.io/tx/B");
    assert_eq!(view[1].is_income, "true");
    assert_eq!(view[2].amount, "0.000003");
    assert_eq!(view[1].date, "Sat, 15 Jan 2022 00:00:00 +0000");
}

#[test]
fn entries_need_a_date_that_rfc2822_can_write() {
    // 10000-01-01T00:00:00Z: the year has five digits
    assert!(FundsActivityEntry::new(1, FundsActivityEntryType::Income, "x".to_owned(), 253402300800, "t".to_owned()).is_none());
    assert!(FundsActivityEntry::new(1, FundsActivityEntryType::Income, "x".to_owned(), 253402300799, "t".to_owned()).is_some());
    assert!(FundsActivityEntry::new(1, FundsActivityEntryType::Income, "x".to_owned(), i64::MAX, "t".to_owned()).is_none());
}

#[test]
fn shares_available_in_the_investing_escrow() {
    let assets = [
        AssetHolding { asset_id: 1, amount: 10 },
        AssetHolding { asset_id: 7, amount: 500 },
        AssetHolding { asset_id: 7, amount: 9 },
    ];
    assert_eq!(shares_available(&assets, 7), Ok(500));
    assert_eq!(
        shares_available(&assets, 8),
        Err("Invalid app state: Investor escrow doesn't have shares asset, Please contact support.".to_owned())
    );
}
