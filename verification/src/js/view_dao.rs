//! What the page of a DAO shows of its investing escrow.

use vstd::prelude::*;
use crate::number_text::{dec_digits, u64_to_string};
use crate::text::concat_str;

verus! {

/// An asset that an account holds: the asset's id and the amount.
#[derive(Debug, Clone, Copy, PartialEq, Eq)]
pub struct AssetHolding {
    pub asset_id: u64,
    pub amount: u64,
}

/// The error where the investing escrow holds no shares.
pub open spec fn missing_shares_message() -> Seq<char> {
    "Invalid app state: Investor escrow doesn't have shares asset, Please contact support."@
}

/// The shares that are still for sale: the amount of the first holding of
/// the shares asset among the investing escrow's assets; an error where the
/// escrow holds none.
pub fn shares_available(assets: &[AssetHolding], shares_asset_id: u64) -> (r: Result<u64, String>)
    ensures
        match r {
            Ok(amount) => exists|i: int|
                0 <= i < assets@.len() && (#[trigger] assets@[i]).asset_id == shares_asset_id
                    && assets@[i].amount == amount && forall|j: int|
                    0 <= j < i ==> (#[trigger] assets@[j]).asset_id != shares_asset_id,
            Err(e) => e@ == missing_shares_message() && forall|i: int|
                0 <= i < assets@.len() ==> (#[trigger] assets@[i]).asset_id != shares_asset_id,
        },
{
    let mut i: usize = 0;
    while i < assets.len()
        invariant
            i <= assets.len(),
            forall|j: int| 0 <= j < i ==> (#[trigger] assets@[j]).asset_id != shares_asset_id,
        decreases assets.len() - i,
    {
        if assets[i].asset_id == shares_asset_id {
            return Ok(assets[i].amount);
        }
        i = i + 1;
    }
    Err(
        "Invalid app state: Investor escrow doesn't have shares asset, Please contact support.".to_owned(),
    )
}

/// The investors' share as the DAO's page shows it: the part and ` %`.
pub fn investors_share_text(investors_part: u64) -> (s: String)
    ensures
        s@ == dec_digits(investors_part as nat) + " %"@,
{
    concat_str(u64_to_string(investors_part).as_str(), " %")
}

} // verus!
