use capi_wasm::js::js_types_workarounds::{ContractAccount, ContractAccountJs};
use capi_wasm::js::tx_groups::{claim_to_sign, DrainToSign};
use capi_wasm::js::common::{signed_js_tx_to_signed_tx, signed_js_txs_to_signed_tx, SignedTxFromJs};
use capi_wasm::js::tx_groups::{
    check_claim_txs, create_project_signed_txs, dao_txs_to_sign, project_txs_to_sign,
    setup_dao_signed_txs, stake_signed_txs, unlock_signed_tx,
};

fn garbage(n: usize) -> Vec<SignedTxFromJs> {
    (0..n).map(|i| SignedTxFromJs { blob: vec![0xc1, i as u8] }).collect()
}

fn rmp_error(blob: &[u8]) -> String {
    rmp_serde::from_slice::<algonaut::transaction::SignedTransaction>(blob)
        .unwrap_err()
        .to_string()
}

#[test]
fn dao_transactions_are_bundled_in_order() {
    assert_eq!(dao_txs_to_sign(1, vec![2, 3, 4], 5, 6), Ok(vec![1, 2, 3, 4, 5, 6]));
    assert_eq!(
        dao_txs_to_sign(1, vec![2, 3], 5, 6),
        Err("Unexpected funding txs length: 2".to_owned())
    );
}

#[test]
fn project_transactions_are_bundled_in_order() {
    assert_eq!(project_txs_to_sign('a', vec!['b', 'c', 'd', 'e'], 'f'), Ok(vec!['a', 'b', 'c', 'd', 'e', 'f']));
    assert_eq!(
        project_txs_to_sign('a', vec!['b'], 'f'),
        Err("Unexpected funding txs length: 1".to_owned())
    );
}

#[test]
fn undecodable_blobs_give_the_decoder_error() {
    let tx = SignedTxFromJs { blob: vec![1, 2, 3] };
    assert_eq!(signed_js_tx_to_signed_tx(&tx).err(), Some(rmp_error(&[1, 2, 3])));
    assert_eq!(signed_js_txs_to_signed_tx(&garbage(2)).err(), Some(rmp_error(&[0xc1, 0])));
    assert!(matches!(signed_js_txs_to_signed_tx(&[]), Ok(v) if v.is_empty()));
}

#[test]
fn signed_group_sizes_are_checked() {
    assert_eq!(
        setup_dao_signed_txs(&garbage(3), &[0xc1]).err(),
        Some("Unexpected signed dao txs length: 3".to_owned())
    );
    assert_eq!(
        create_project_signed_txs(&garbage(5)).err(),
        Some("Unexpected signed project txs length: 5".to_owned())
    );
    assert_eq!(unlock_signed_tx(&garbage(2)).err(), Some("Invalid unlock txs count: 2".to_owned()));
    assert_eq!(stake_signed_txs(&garbage(1)).err(), Some("Invalid app optins count: 1".to_owned()));
}

#[test]
fn signed_groups_decode_in_their_order() {
    // the dao setup decodes the app funding (position 2) first
    assert_eq!(setup_dao_signed_txs(&garbage(4), &[0xc1]).err(), Some(rmp_error(&[0xc1, 2])));
    assert_eq!(create_project_signed_txs(&garbage(6)).err(), Some(rmp_error(&[0xc1, 1])));
    assert_eq!(unlock_signed_tx(&garbage(1)).err(), Some(rmp_error(&[0xc1, 0])));
    assert_eq!(stake_signed_txs(&garbage(2)).err(), Some(rmp_error(&[0xc1, 0])));
}

#[test]
fn claim_transactions_and_passthrough_must_agree() {
    let some = Some(vec![1u8]);
    assert_eq!(check_claim_txs(&garbage(1), &None, &None), Ok(false));
    assert_eq!(check_claim_txs(&garbage(3), &some, &some), Ok(true));
    assert_eq!(
        check_claim_txs(&garbage(2), &None, &None),
        Err("Unexpected claim txs length: 2".to_owned())
    );
    assert_eq!(
        check_claim_txs(&garbage(1), &some, &None),
        Err("Invalid state: 1 tx with a passthrough draining tx".to_owned())
    );
    assert_eq!(
        check_claim_txs(&garbage(3), &None, &some),
        Err("Invalid state: if there are signed (in js) drain txs there should be also a passthrough signed drain tx".to_owned())
    );
    assert_eq!(
        check_claim_txs(&garbage(3), &some, &None),
        Err("Invalid state: if there are signed (in js) drain txs there should be also a passthrough signed capi share tx".to_owned())
    );
}

#[test]
fn contract_accounts_go_through_json_and_back() {
    let program = vec![6u8, 129, 1];
    let outside = algonaut::transaction::contract_account::ContractAccount::new(
        algonaut::core::CompiledTeal(program.clone()),
    );
    let account = ContractAccount::new(program.clone());
    assert_eq!(account.address().bytes, outside.address().0);
    assert_eq!(account.program(), &program);
    let js = ContractAccountJs::from(&account);
    assert_eq!(js.address, outside.address().to_string());
    assert_eq!(js.program, program);
    let back = js.clone().to_contract_account().unwrap();
    assert_eq!(back.program(), &program);
    assert_eq!(back.address(), account.address());

    let wrong = ContractAccountJs {
        address: "AAAAAAAAAAAAAAAAAAAAAAAAAAAAAAAAAAAAAAAAAAAAAAAAAAAAY5HFKQ".to_owned(),
        program: program.clone(),
    };
    assert_eq!(
        wrong.to_contract_account().err(),
        Some(format!(
            "Invalid state: the address: AAAAAAAAAAAAAAAAAAAAAAAAAAAAAAAAAAAAAAAAAAAAAAAAAAAAY5HFKQ doesn't correspond to the program: {:?}",
            algonaut::core::CompiledTeal(program)
        ))
    );
}

#[test]
fn claims_append_the_draining_calls() {
    let plain = claim_to_sign(1, None);
    assert_eq!(plain.to_sign, vec![1]);
    assert_eq!(plain.maybe_drain_tx_msg_pack, None);
    assert_eq!(plain.maybe_capi_share_tx_msg_pack, None);
    let drained = claim_to_sign(
        1,
        Some(DrainToSign {
            app_call_tx: 2,
            capi_app_call_tx: 3,
            drain_tx_msg_pack: vec![9],
            capi_share_tx_msg_pack: vec![8],
        }),
    );
    assert_eq!(drained.to_sign, vec![1, 2, 3]);
    assert_eq!(drained.maybe_drain_tx_msg_pack, Some(vec![9]));
    assert_eq!(drained.maybe_capi_share_tx_msg_pack, Some(vec![8]));
    let garbage3: Vec<SignedTxFromJs> = (0..3).map(|i| SignedTxFromJs { blob: vec![i] }).collect();
    assert_eq!(
        check_claim_txs(&garbage3, &drained.maybe_drain_tx_msg_pack, &drained.maybe_capi_share_tx_msg_pack),
        Ok(true)
    );
}
