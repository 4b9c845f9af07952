//! Links to transactions and accounts in the block explorer.

use vstd::prelude::*;
use crate::address::{Address, address_text};
use crate::dependencies::{explorer_base_url, explorer_url};
use crate::text::concat_str;

verus! {

/// The link to a transaction: the explorer's url, `tx/` and the id.
pub open spec fn tx_link(base_url: Seq<char>, tx_id: Seq<char>) -> Seq<char> {
    base_url + "tx/"@ + tx_id
}

/// The link to an account: the explorer's url, `address/` and the address.
pub open spec fn address_link(base_url: Seq<char>, address: Seq<char>) -> Seq<char> {
    base_url + "address/"@ + address
}

/// The link to the transaction with the id `tx_id` (its text) in the
/// explorer at `base_url`.
pub fn explorer_tx_id_link(base_url: &str, tx_id: &str) -> (link: String)
    ensures
        link@ == tx_link(base_url@, tx_id@),
{
    let with_path = concat_str(base_url, "tx/");
    concat_str(with_path.as_str(), tx_id)
}

/// The link to a transaction in the explorer of the app's network.
pub fn explorer_tx_id_link_env(tx_id: &str) -> (link: String)
    ensures
        link@ == tx_link(explorer_url(), tx_id@),
{
    explorer_tx_id_link(explorer_base_url(), tx_id)
}

/// The link to an account in the explorer at `base_url`.
pub fn explorer_address_link(base_url: &str, address: &Address) -> (link: String)
    ensures
        link@ == address_link(base_url@, address_text(address.bytes@)),
{
    let with_path = concat_str(base_url, "address/");
    let text = address.to_text();
    concat_str(with_path.as_str(), text.as_str())
}

/// The link to an account in the explorer of the app's network.
pub fn explorer_address_link_env(address: &Address) -> (link: String)
    ensures
        link@ == address_link(explorer_url(), address_text(address.bytes@)),
{
    explorer_address_link(explorer_base_url(), address)
}

} // verus!
