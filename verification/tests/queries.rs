use capi_wasm::address::Address;
use capi_wasm::dependencies::{FundsAssetId, FundsAssetSpecs};
use capi_wasm::js::create_dao::ShareAmount;
use capi_wasm::js::queries::income_vs_spending::{income_vs_spending, ChartPayment};
use capi_wasm::js::queries::my_daos::{bool_to_string, MyDaoJs, MyStoredDao};
use capi_wasm::js::queries::my_projects::{MyProjectJs, MyStoredProject};
use capi_wasm::js::queries::my_shares::my_shares_res;
use capi_wasm::js::queries::shares_distribution::{not_owned_shares_amount, shorten_address};

#[test]
fn my_daos_and_projects_for_the_frontend() {
    let js = MyDaoJs::from(MyStoredDao {
        dao_id: "123".to_owned(),
        name: "Dao".to_owned(),
        created_by_me: true,
        invested_by_me: false,
    });
    assert_eq!(js.url_rel, "/123");
    assert_eq!(js.name, "Dao");
    assert_eq!(js.created_by_me, "true");
    assert_eq!(js.invested_by_me, "false");
    let js = MyProjectJs::from(MyStoredProject {
        project_id: "p9".to_owned(),
        name: "Project".to_owned(),
        created_by_me: false,
        invested_by_me: true,
    });
    assert_eq!(js.url_rel, "/p9");
    assert_eq!(js.created_by_me, "false");
    assert_eq!(js.invested_by_me, "true");
    assert_eq!(bool_to_string(true), true.to_string());
}

#[test]
fn my_shares_total_is_locked_plus_free() {
    let r = my_shares_res(ShareAmount(10), ShareAmount(5)).unwrap();
    assert_eq!(r.total, "15");
    assert_eq!(r.free, "5");
    assert_eq!(r.locked, "10");
    assert_eq!(
        my_shares_res(ShareAmount(u64::MAX), ShareAmount(1)),
        Err(format!(
            "Invalid state: locked shares: {} + fee_shares: 1 caused an overflow. This is expected to be <= asset supply, which is an u64",
            u64::MAX
        ))
    );
}

#[test]
fn addresses_are_shortened_to_their_ends() {
    let a = Address { bytes: [0u8; 32] };
    assert_eq!(shorten_address(&a), Ok("AAA...FKQ".to_owned()));
}

#[test]
fn not_owned_shares_are_the_rest_of_the_supply() {
    assert_eq!(not_owned_shares_amount(&vec![10, 20, 30], 100), 40);
    assert_eq!(not_owned_shares_amount(&vec![], 100), 100);
    assert_eq!(not_owned_shares_amount(&vec![100], 100), 0);
}

#[test]
fn income_and_spending_chart() {
    let specs = FundsAssetSpecs { id: FundsAssetId(1), decimals: 6 };
    let income = vec![
        ChartPayment { date: 300, amount: 3_000_000 },
        ChartPayment { date: 100, amount: 1_000_000 },
        ChartPayment { date: 100, amount: 1_500_000 },
    ];
    let spending = vec![ChartPayment { date: 200, amount: 500_000 }];
    let r = income_vs_spending(&income, &spending, &specs);
    let dates: Vec<&str> = r.chart_lines.income.iter().map(|p| p.date.as_str()).collect();
    assert_eq!(dates, vec!["100", "100", "300"]);
    let values: Vec<&str> = r.chart_lines.income.iter().map(|p| p.value.as_str()).collect();
    assert_eq!(values, vec!["1.000000", "1.500000", "3.000000"]);
    assert_eq!(r.chart_lines.spending.len(), 1);
    assert_eq!(r.chart_lines.spending[0].date, "200");
    assert_eq!(r.chart_lines.spending[0].value, "0.500000");
    assert_eq!(r.flat_data_points.len(), 4);
    assert_eq!(r.flat_data_points[3], r.chart_lines.spending[0]);
    assert_eq!(r.flat_data_points[0], r.chart_lines.income[0]);
}
