use capi_wasm::decimal::microalgos_to_algos_str;
use capi_wasm::js::balance::balance_res;
use capi_wasm::decimal::{base_units_to_display_units_str, pow10_u128, Decimal};
use capi_wasm::dependencies::{FundsAssetId, FundsAssetSpecs};

#[test]
fn parses_decimal_texts_into_parts() {
    assert_eq!(
        Decimal::parse("1.50"),
        Some(Decimal { mantissa: 150, negative: false, scale: 2 })
    );
    assert_eq!(
        Decimal::parse("-0.5"),
        Some(Decimal { mantissa: -5, negative: true, scale: 1 })
    );
    assert_eq!(Decimal::parse("abc"), None);
    assert_eq!(Decimal::parse(""), None);
}

#[test]
fn writes_decimals_as_rust_decimal_does() {
    assert_eq!(Decimal { mantissa: 150, negative: false, scale: 2 }.to_text(), "1.50");
    assert_eq!(Decimal { mantissa: -5, negative: true, scale: 1 }.to_text(), "-0.5");
    assert_eq!(Decimal { mantissa: 40, negative: false, scale: 0 }.to_text(), "40");
}

#[test]
fn shows_base_units_with_the_asset_decimals() {
    let specs = FundsAssetSpecs { id: FundsAssetId(1), decimals: 6 };
    assert_eq!(base_units_to_display_units_str(1_234_567, &specs), "1.234567");
    assert_eq!(base_units_to_display_units_str(0, &specs), "0.000000");
    assert_eq!(base_units_to_display_units_str(5, &specs), "0.000005");
}

#[test]
fn computes_powers_of_ten() {
    assert_eq!(pow10_u128(0), 1);
    assert_eq!(pow10_u128(6), 1_000_000);
    assert_eq!(pow10_u128(28), 10u128.pow(28));
}

#[test]
fn shows_microalgos_in_algos() {
    assert_eq!(microalgos_to_algos_str(1_000_000), "1.000000");
    assert_eq!(microalgos_to_algos_str(1), "0.000001");
}

#[test]
fn balances_in_display_units() {
    let specs = FundsAssetSpecs { id: FundsAssetId(1), decimals: 2 };
    let r = balance_res(2_500_000, 1234, &specs);
    assert_eq!(r.balance_algos, "2.500000");
    assert_eq!(r.balance_funds_asset, "12.34");
}
