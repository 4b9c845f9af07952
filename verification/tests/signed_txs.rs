use algonaut::crypto::HashDigest;
use algonaut::transaction::builder::{Pay, TransactionParams};
use algonaut::transaction::contract_account::ContractAccount;
use algonaut::transaction::SignedTransaction;
use capi_wasm::js::common::{signed_js_tx_to_signed_tx, signed_js_txs_to_signed_tx, SignedTxFromJs};
use capi_wasm::js::tx_groups::{create_project_signed_txs, invest_signed_txs, setup_dao_signed_txs, stake_signed_txs, unlock_signed_tx, unstake_signed_txs};

struct StubParams {
    genesis_id: String,
}

impl TransactionParams for StubParams {
    fn last_round(&self) -> u64 {
        1
    }
    fn min_fee(&self) -> u64 {
        1_000
    }
    fn genesis_hash(&self) -> HashDigest {
        HashDigest([0; 32])
    }
    fn genesis_id(&self) -> &String {
        &self.genesis_id
    }
}

fn signed(amount: u64) -> SignedTransaction {
    let params = StubParams { genesis_id: "testnet-v1.0".to_owned() };
    let account = ContractAccount::new(algonaut::core::CompiledTeal(vec![6, 129, 1]));
    let tx = Pay::new(*account.address(), *account.address(), algonaut::core::MicroAlgos(amount))
        .build(&params)
        .unwrap();
    account.sign(tx, vec![]).unwrap()
}

fn from_js(tx: &SignedTransaction) -> SignedTxFromJs {
    SignedTxFromJs { blob: rmp_serde::to_vec_named(tx).unwrap() }
}

fn garbage(tag: u8) -> SignedTxFromJs {
    SignedTxFromJs { blob: vec![0xc1, tag] }
}

fn rmp_error(blob: &[u8]) -> String {
    rmp_serde::from_slice::<SignedTransaction>(blob).unwrap_err().to_string()
}

#[test]
fn signed_transactions_decode_from_their_blobs() {
    let tx = signed(1_000);
    let decoded = signed_js_tx_to_signed_tx(&from_js(&tx)).unwrap();
    assert_eq!(decoded.tx, tx);
    assert_eq!(decoded.blob, from_js(&tx).blob);
    let other = signed(2_000);
    let all = signed_js_txs_to_signed_tx(&[from_js(&tx), from_js(&other)]).unwrap();
    assert_eq!(all.len(), 2);
    assert_eq!(all[0].tx, tx);
    assert_eq!(all[1].tx, other);
    assert_eq!(
        signed_js_txs_to_signed_tx(&[from_js(&tx), garbage(1), garbage(2)]).err(),
        Some(rmp_error(&[0xc1, 1]))
    );
}

#[test]
fn single_transaction_groups_decode() {
    let tx = signed(5);
    assert_eq!(unlock_signed_tx(&[from_js(&tx)]).unwrap().tx, tx);
    let stake = stake_signed_txs(&[from_js(&tx), from_js(&signed(6))]).unwrap();
    assert_eq!(stake.central_app_call_setup_tx.tx, tx);
    assert_eq!(stake.shares_xfer_tx_signed.tx, signed(6));
    assert_eq!(
        stake_signed_txs(&[from_js(&tx), garbage(9)]).err(),
        Some(rmp_error(&[0xc1, 9]))
    );
}

#[test]
fn investments_are_taken_apart_by_position() {
    let txs: Vec<SignedTxFromJs> = (1..=6).map(|i| from_js(&signed(i))).collect();
    let pt = rmp_serde::to_vec_named(&signed(100)).unwrap();
    let r = invest_signed_txs(&txs, 2, &pt).unwrap();
    assert_eq!(r.central_app_setup_tx.tx, signed(1));
    assert_eq!(r.payment_tx.tx, signed(2));
    assert_eq!(r.shares_asset_optin_tx.tx, signed(3));
    assert_eq!(r.pay_escrow_fee_tx.tx, signed(4));
    assert_eq!(r.slots_setup_txs.iter().map(|d| d.tx.clone()).collect::<Vec<_>>(), vec![signed(5), signed(6)]);
    assert_eq!(r.shares_xfer_tx.tx, signed(100));
    assert_eq!(
        invest_signed_txs(&txs, 3, &pt).err(),
        Some("Unexpected signed invest txs length: 6".to_owned())
    );
    // the signed transactions are decoded before the passed-through one
    let mut bad = txs.clone();
    bad[5] = garbage(5);
    assert_eq!(invest_signed_txs(&bad, 2, &[0xc1, 7]).err(), Some(rmp_error(&[0xc1, 5])));
    assert_eq!(invest_signed_txs(&txs, 2, &[0xc1, 7]).err(), Some(rmp_error(&[0xc1, 7])));
}

#[test]
fn unstakings_decode_the_fee_last() {
    let txs: Vec<SignedTxFromJs> = (1..=4).map(|i| from_js(&signed(i))).collect();
    let pt = rmp_serde::to_vec_named(&signed(50)).unwrap();
    let r = unstake_signed_txs(&txs, 2, &pt).unwrap();
    assert_eq!(r.central_app_optout_tx.tx, signed(1));
    assert_eq!(r.pay_shares_xfer_fee_tx.tx, signed(2));
    assert_eq!(r.slot_optout_txs.iter().map(|d| d.tx.clone()).collect::<Vec<_>>(), vec![signed(3), signed(4)]);
    assert_eq!(r.shares_xfer_tx_signed.tx, signed(50));
    assert_eq!(
        unstake_signed_txs(&txs, 1, &pt).err(),
        Some("Invalid unstake txs count: 4".to_owned())
    );
    let mut bad_fee = txs.clone();
    bad_fee[1] = garbage(1);
    assert_eq!(unstake_signed_txs(&bad_fee, 2, &[0xc1, 8]).err(), Some(rmp_error(&[0xc1, 8])));
    assert_eq!(unstake_signed_txs(&bad_fee, 2, &pt).err(), Some(rmp_error(&[0xc1, 1])));
    let mut bad_slot = bad_fee.clone();
    bad_slot[3] = garbage(3);
    assert_eq!(unstake_signed_txs(&bad_slot, 2, &[0xc1, 8]).err(), Some(rmp_error(&[0xc1, 3])));
}

#[test]
fn dao_setups_decode_the_passed_through_optin_after_the_fundings() {
    let txs: Vec<SignedTxFromJs> = (1..=4).map(|i| from_js(&signed(i))).collect();
    let optin = rmp_serde::to_vec_named(&signed(77)).unwrap();
    let r = setup_dao_signed_txs(&txs, &optin).unwrap();
    assert_eq!(r.setup_app_tx.tx, signed(1));
    assert_eq!(r.customer_escrow_funding_tx.tx, signed(2));
    assert_eq!(r.app_funding_tx.tx, signed(3));
    assert_eq!(r.transfer_shares_to_app_tx.tx, signed(4));
    assert_eq!(r.customer_escrow_optin_to_funds_asset_tx.tx, signed(77));
    let mut bad = txs.clone();
    bad[0] = garbage(0);
    bad[3] = garbage(3);
    assert_eq!(setup_dao_signed_txs(&bad, &optin).err(), Some(rmp_error(&[0xc1, 3])));
    assert_eq!(setup_dao_signed_txs(&bad, &[0xc1, 9]).err(), Some(rmp_error(&[0xc1, 9])));
}

#[test]
fn project_transactions_are_read_back_in_bundle_order() {
    let txs: Vec<SignedTxFromJs> = (1..=6).map(|i| from_js(&signed(i))).collect();
    let r = create_project_signed_txs(&txs).unwrap();
    assert_eq!(r.create_app_tx.tx, signed(1));
    assert_eq!(
        r.escrow_funding_txs.iter().map(|d| d.tx.clone()).collect::<Vec<_>>(),
        vec![signed(2), signed(3), signed(4), signed(5)]
    );
    assert_eq!(r.xfer_shares_to_invest_escrow.tx, signed(6));
    // the fundings are decoded before the app creation
    let mut bad = txs.clone();
    bad[0] = garbage(0);
    bad[4] = garbage(4);
    assert_eq!(create_project_signed_txs(&bad).err(), Some(rmp_error(&[0xc1, 4])));
}
