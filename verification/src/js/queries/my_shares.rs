//! The shares of a user in a DAO: those locked in the DAO's app and those
//! held freely.

use vstd::prelude::*;
use crate::js::create_dao::ShareAmount;
use crate::js::load_investment::InvestorStateLoad;
use crate::number_text::{dec_digits, u64_to_string};
use crate::text::concat_str;

verus! {

/// The shares of a user, as the frontend reads them.
#[derive(Debug, Clone, PartialEq, Eq)]
pub struct MySharesResJs {
    pub total: String,
    pub free: String,
    pub locked: String,
}

/// The error where the total of the user's shares overflows a `u64`.
pub open spec fn shares_overflow_message(locked: u64, free: u64) -> Seq<char> {
    "Invalid state: locked shares: "@ + dec_digits(locked as nat) + " + fee_shares: "@
        + dec_digits(free as nat)
        + " caused an overflow. This is expected to be <= asset supply, which is an u64"@
}

/// The user's shares: the locked ones, the free ones and their total; an
/// error where the total does not fit in a `u64` (it is expected to be at
/// most the asset's supply).
pub fn my_shares_res(locked_shares: ShareAmount, free_shares: ShareAmount) -> (r: Result<
    MySharesResJs,
    String,
>)
    ensures
        match r {
            Ok(js) => locked_shares.0 + free_shares.0 <= u64::MAX && js.total@ == dec_digits(
                (locked_shares.0 + free_shares.0) as nat,
            ) && js.free@ == dec_digits(free_shares.0 as nat) && js.locked@ == dec_digits(
                locked_shares.0 as nat,
            ),
            Err(e) => locked_shares.0 + free_shares.0 > u64::MAX && e@ == shares_overflow_message(
                locked_shares.0,
                free_shares.0,
            ),
        },
{
    match locked_shares.0.checked_add(free_shares.0) {
        Some(total) => Ok(
            MySharesResJs {
                total: u64_to_string(total),
                free: u64_to_string(free_shares.0),
                locked: u64_to_string(locked_shares.0),
            },
        ),
        None => {
            let s = concat_str("Invalid state: locked shares: ", u64_to_string(locked_shares.0).as_str());
            let s = concat_str(s.as_str(), " + fee_shares: ");
            let s = concat_str(s.as_str(), u64_to_string(free_shares.0).as_str());
            Err(
                concat_str(
                    s.as_str(),
                    " caused an overflow. This is expected to be <= asset supply, which is an u64",
                ),
            )
        },
    }
}

/// Whether `r` is what the user is shown of their shares: the locked shares
/// from the state load (none where not opted in), the free ones from the
/// holding; the first error otherwise (the state's, then the holding's).
pub open spec fn is_my_shares(
    r: Result<MySharesResJs, String>,
    locked: InvestorStateLoad,
    free: Result<u64, String>,
) -> bool {
    match locked {
        InvestorStateLoad::Failed(e) => r matches Err(m) && m@ == e@,
        _ => {
            let l: u64 = match locked {
                InvestorStateLoad::State { shares, .. } => shares,
                _ => 0u64,
            };
            match free {
                Err(e) => r matches Err(m) && m@ == e@,
                Ok(f) => match r {
                    Ok(js) => l + f <= u64::MAX && js.total@ == dec_digits((l + f) as nat)
                        && js.free@ == dec_digits(f as nat) && js.locked@ == dec_digits(l as nat),
                    Err(e) => l + f > u64::MAX && e@ == shares_overflow_message(l, f),
                },
            }
        },
    }
}

/// The user's shares in a DAO, from the load of their local state in the
/// DAO's app and the load of their holding of the shares asset.
pub fn my_shares(locked: InvestorStateLoad, free: Result<u64, String>) -> (r: Result<
    MySharesResJs,
    String,
>)
    ensures
        is_my_shares(r, locked, free),
{
    let locked_shares: u64 = match locked {
        InvestorStateLoad::State { shares, .. } => shares,
        InvestorStateLoad::NotOptedIn => 0,
        InvestorStateLoad::Failed(e) => {
            return Err(e);
        },
    };
    let free_shares = match free {
        Ok(f) => f,
        Err(e) => {
            return Err(e);
        },
    };
    my_shares_res(ShareAmount(locked_shares), ShareAmount(free_shares))
}

} // verus!
