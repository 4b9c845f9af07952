use capi_wasm::address::Address;
use capi_wasm::dependencies::{explorer_base_url, explorer_base_url_for_net, Network};
use capi_wasm::js::explorer_links::{
    explorer_address_link, explorer_address_link_env, explorer_tx_id_link, explorer_tx_id_link_env,
};

#[test]
fn links_to_transactions() {
    assert_eq!(explorer_tx_id_link("https://x.io/", "ABC"), "https://x.io/tx/ABC");
    assert_eq!(explorer_tx_id_link_env("ABC"), "https://testnet.algoexplorer.io/tx/ABC");
}

#[test]
fn links_to_addresses() {
    let a = Address { bytes: [0u8; 32] };
    assert_eq!(
        explorer_address_link("https://x.io/", &a),
        "https://x.io/address/AAAAAAAAAAAAAAAAAAAAAAAAAAAAAAAAAAAAAAAAAAAAAAAAAAAAY5HFKQ"
    );
    assert_eq!(
        explorer_address_link_env(&a),
        "https://testnet.algoexplorer.io/address/AAAAAAAAAAAAAAAAAAAAAAAAAAAAAAAAAAAAAAAAAAAAAAAAAAAAY5HFKQ"
    );
}

#[test]
fn every_network_uses_the_test_network_explorer() {
    for net in [Network::Private, Network::SandboxPrivate, Network::Test] {
        assert_eq!(explorer_base_url_for_net(&net), "https://testnet.algoexplorer.io/");
    }
    assert_eq!(explorer_base_url(), "https://testnet.algoexplorer.io/");
}
