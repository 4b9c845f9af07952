//! The data of a DAO that its owner can update, as the form sends it.

use vstd::prelude::*;
use crate::address::{Address, address_from_text};
use crate::number_text::{parse_u64, parse_u64_spec, int_error_message, int_error_text};

verus! {

/// The fields of the form that updates a DAO's data, as entered.
#[derive(Debug, Clone, PartialEq, Eq)]
pub struct UpdateDataParJs {
    pub dao_id: String,
    pub owner: String,
    pub central_escrow: String,
    pub customer_escrow: String,
    pub investing_escrow: String,
    pub locking_escrow: String,
    pub project_name: String,
    pub project_desc: String,
    pub share_price: String,
    pub logo_url: String,
    pub social_media_url: String,
}

/// The data of a DAO that its owner can update.
#[derive(Debug, Clone, PartialEq, Eq)]
pub struct UpdatableDaoData {
    pub central_escrow: Address,
    pub customer_escrow: Address,
    pub investing_escrow: Address,
    pub locking_escrow: Address,
    pub project_name: String,
    pub project_desc: String,
    /// In base units of the funds asset.
    pub share_price: u64,
    pub logo_url: String,
    pub social_media_url: String,
    pub owner: Address,
}

/// Parses an address; the error is the text that `algonaut` gives.
pub fn parse_addr(s: String) -> (r: Result<Address, String>)
    ensures
        match (r, address_from_text(s@)) {
            (Ok(a), Ok(bytes)) => a.bytes@ == bytes,
            (Err(e), Err(m)) => e@ == m,
            _ => false,
        },
{
    Address::parse(s.as_str())
}

/// The first error among the address fields and the share price, in the
/// order central, customer, investing and locking escrow, share price.
pub open spec fn updatable_data_error(pars: UpdateDataParJs) -> Option<Seq<char>> {
    if address_from_text(pars.central_escrow@) is Err {
        Some(address_from_text(pars.central_escrow@)->Err_0)
    } else if address_from_text(pars.customer_escrow@) is Err {
        Some(address_from_text(pars.customer_escrow@)->Err_0)
    } else if address_from_text(pars.investing_escrow@) is Err {
        Some(address_from_text(pars.investing_escrow@)->Err_0)
    } else if address_from_text(pars.locking_escrow@) is Err {
        Some(address_from_text(pars.locking_escrow@)->Err_0)
    } else if parse_u64_spec(pars.share_price@) is Err {
        Some(int_error_text(parse_u64_spec(pars.share_price@)->Err_0))
    } else {
        None
    }
}

/// Whether `d` holds the form's values, parsed, with `owner` as the owner.
pub open spec fn is_updatable_data(d: UpdatableDaoData, pars: UpdateDataParJs, owner: Address) -> bool {
    &&& address_from_text(pars.central_escrow@) == Ok::<Seq<u8>, Seq<char>>(d.central_escrow.bytes@)
    &&& address_from_text(pars.customer_escrow@) == Ok::<Seq<u8>, Seq<char>>(d.customer_escrow.bytes@)
    &&& address_from_text(pars.investing_escrow@) == Ok::<Seq<u8>, Seq<char>>(
        d.investing_escrow.bytes@,
    )
    &&& address_from_text(pars.locking_escrow@) == Ok::<Seq<u8>, Seq<char>>(d.locking_escrow.bytes@)
    &&& parse_u64_spec(pars.share_price@) == Ok::<u64, crate::number_text::IntErrorKind>(d.share_price)
    &&& d.project_name@ == pars.project_name@
    &&& d.project_desc@ == pars.project_desc@
    &&& d.logo_url@ == pars.logo_url@
    &&& d.social_media_url@ == pars.social_media_url@
    &&& d.owner == owner
}

/// The data to update, parsed from the form; the first field that does not
/// parse gives the error.
pub fn updatable_dao_data(pars: UpdateDataParJs, owner: Address) -> (r: Result<UpdatableDaoData, String>)
    ensures
        match r {
            Ok(d) => updatable_data_error(pars) is None && is_updatable_data(d, pars, owner),
            Err(e) => updatable_data_error(pars) == Some(e@),
        },
{
    let central_escrow = match parse_addr(pars.central_escrow) {
        Ok(a) => a,
        Err(e) => {
            return Err(e);
        },
    };
    let customer_escrow = match parse_addr(pars.customer_escrow) {
        Ok(a) => a,
        Err(e) => {
            return Err(e);
        },
    };
    let investing_escrow = match parse_addr(pars.investing_escrow) {
        Ok(a) => a,
        Err(e) => {
            return Err(e);
        },
    };
    let locking_escrow = match parse_addr(pars.locking_escrow) {
        Ok(a) => a,
        Err(e) => {
            return Err(e);
        },
    };
    let share_price = match parse_u64(pars.share_price.as_str()) {
        Ok(n) => n,
        Err(kind) => {
            return Err(int_error_message(kind));
        },
    };
    Ok(UpdatableDaoData {
        central_escrow,
        customer_escrow,
        investing_escrow,
        locking_escrow,
        project_name: pars.project_name,
        project_desc: pars.project_desc,
        share_price,
        logo_url: pars.logo_url,
        social_media_url: pars.social_media_url,
        owner,
    })
}

} // verus!
