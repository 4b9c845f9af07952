//! The share count that an investor enters to buy shares.

use vstd::prelude::*;
use crate::js::create_dao::ShareAmount;
use crate::number_text::{parse_u64, parse_u64_spec, int_error_message, int_error_text};

verus! {

/// What the entered share count gives: a `u64` other than 0; the message of
/// the `ParseIntError` where it is no `u64`.
pub open spec fn buy_share_count_result(text: Seq<char>) -> Result<u64, Seq<char>> {
    match parse_u64_spec(text) {
        Err(kind) => Err(int_error_text(kind)),
        Ok(n) => if n == 0 {
            Err("Please enter a valid share count"@)
        } else {
            Ok(n)
        },
    }
}

/// The number of shares to buy.
pub fn validate_share_count(input: &str) -> (r: Result<ShareAmount, String>)
    ensures
        match (r, buy_share_count_result(input@)) {
            (Ok(a), Ok(n)) => a.0 == n,
            (Err(e), Err(m)) => e@ == m,
            _ => false,
        },
{
    let share_count = match parse_u64(input) {
        Ok(n) => n,
        Err(kind) => {
            return Err(int_error_message(kind));
        },
    };
    if share_count == 0 {
        return Err("Please enter a valid share count".to_owned());
    }
    Ok(ShareAmount(share_count))
}

} // verus!
