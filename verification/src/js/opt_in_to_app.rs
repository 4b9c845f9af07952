//! Whether an account is opted in to an app.

use vstd::prelude::*;
use crate::number_text::{dec_digits, int_error_message, int_error_text, parse_u64, parse_u64_spec, usize_to_string};
use crate::text::concat_str;

verus! {

/// Whether the app `app_id` is among the apps of which the account has a
/// local state (`apps_local_state_ids`, as the node reports them).
pub fn is_opted_in(apps_local_state_ids: &[u64], app_id: u64) -> (r: bool)
    ensures
        r == apps_local_state_ids@.contains(app_id),
{
    let mut i: usize = 0;
    while i < apps_local_state_ids.len()
        invariant
            i <= apps_local_state_ids.len(),
            forall|j: int| 0 <= j < i ==> apps_local_state_ids@[j] != app_id,
        decreases apps_local_state_ids.len() - i,
    {
        if apps_local_state_ids[i] == app_id {
            return true;
        }
        i = i + 1;
    }
    false
}

/// Whether `r` is the outcome of parsing the slot ids one after the other:
/// all of them, or the message of the first that is no `u64`.
pub open spec fn is_parsed_slot_ids(r: Result<Vec<u64>, String>, slot_ids: Seq<String>) -> bool {
    match r {
        Ok(ids) => ids.len() == slot_ids.len() && forall|i: int|
            0 <= i < slot_ids.len() ==> parse_u64_spec((#[trigger] slot_ids[i])@) == Ok::<
                u64,
                crate::number_text::IntErrorKind,
            >(ids@[i]),
        Err(e) => exists|i: int|
            0 <= i < slot_ids.len() && parse_u64_spec((#[trigger] slot_ids[i])@) is Err && e@
                == int_error_text(parse_u64_spec(slot_ids[i]@)->Err_0) && forall|j: int|
                0 <= j < i ==> parse_u64_spec((#[trigger] slot_ids[j])@) is Ok,
    }
}

/// Parses the ids of the withdrawal slots to opt in to.
pub fn parse_slot_ids(slot_ids: &Vec<String>) -> (r: Result<Vec<u64>, String>)
    ensures
        is_parsed_slot_ids(r, slot_ids@),
{
    let mut ids: Vec<u64> = Vec::new();
    let mut i: usize = 0;
    while i < slot_ids.len()
        invariant
            i <= slot_ids.len(),
            ids.len() == i,
            forall|k: int|
                0 <= k < i ==> parse_u64_spec((#[trigger] slot_ids@[k])@) == Ok::<
                    u64,
                    crate::number_text::IntErrorKind,
                >(ids@[k]),
        decreases slot_ids.len() - i,
    {
        match parse_u64(slot_ids[i].as_str()) {
            Ok(id) => {
                ids.push(id);
            },
            Err(kind) => {
                assert(parse_u64_spec(slot_ids@[i as int]@) is Err);
                return Err(int_error_message(kind));
            },
        }
        i = i + 1;
    }
    Ok(ids)
}

/// Checks the opt-ins generated for an investor: one to the DAO's app and
/// one for each withdrawal slot.
pub fn checked_optins<T>(optins: Vec<T>, withdrawal_slot_count: usize) -> (r: Result<Vec<T>, String>)
    requires
        withdrawal_slot_count < usize::MAX,
    ensures
        match r {
            Ok(v) => optins.len() == 1 + withdrawal_slot_count && v@ == optins@,
            Err(e) => optins.len() != 1 + withdrawal_slot_count && e@
                == "Invalid generated app optins count: "@ + dec_digits(optins.len() as nat),
        },
{
    if optins.len() != 1 + withdrawal_slot_count {
        let digits = usize_to_string(optins.len());
        return Err(concat_str("Invalid generated app optins count: ", digits.as_str()));
    }
    Ok(optins)
}

/// Whether `r` is the plan of the opt-ins: nothing to sign where the
/// investor is opted in to the DAO's app; else the apps to opt in to, the
/// DAO's app first and then the slots in the order given; the error of the
/// first slot id that is no `u64`.
pub open spec fn is_opt_in_plan(
    r: Result<Option<Vec<u64>>, String>,
    apps_local_state_ids: Seq<u64>,
    app_id: u64,
    slot_ids: Seq<String>,
) -> bool {
    if apps_local_state_ids.contains(app_id) {
        r == Ok::<Option<Vec<u64>>, String>(None)
    } else {
        match r {
            Ok(Some(apps)) => apps.len() == slot_ids.len() + 1 && apps@[0] == app_id && forall|
                i: int,
            |
                0 <= i < slot_ids.len() ==> parse_u64_spec((#[trigger] slot_ids[i])@) == Ok::<
                    u64,
                    crate::number_text::IntErrorKind,
                >(apps@[i + 1]),
            Ok(None) => false,
            Err(e) => exists|i: int|
                0 <= i < slot_ids.len() && parse_u64_spec((#[trigger] slot_ids[i])@) is Err && e@
                    == int_error_text(parse_u64_spec(slot_ids[i]@)->Err_0) && forall|j: int|
                    0 <= j < i ==> parse_u64_spec((#[trigger] slot_ids[j])@) is Ok,
        }
    }
}

/// The apps an investor must opt in to before investing: none where the
/// investor is opted in to the DAO's app (taken to mean opted in to all of
/// its apps), else the DAO's app and its withdrawal slots.
pub fn opt_in_plan(apps_local_state_ids: &[u64], app_id: u64, slot_ids: &Vec<String>) -> (r: Result<
    Option<Vec<u64>>,
    String,
>)
    ensures
        is_opt_in_plan(r, apps_local_state_ids@, app_id, slot_ids@),
{
    if is_opted_in(apps_local_state_ids, app_id) {
        return Ok(None);
    }
    let slots = match parse_slot_ids(slot_ids) {
        Ok(ids) => ids,
        Err(e) => {
            return Err(e);
        },
    };
    let mut apps: Vec<u64> = Vec::new();
    apps.push(app_id);
    let mut i: usize = 0;
    while i < slots.len()
        invariant
            i <= slots.len(),
            apps.len() == i + 1,
            apps@[0] == app_id,
            forall|k: int| 0 <= k < i ==> apps@[k + 1] == slots@[k],
        decreases slots.len() - i,
    {
        apps.push(slots[i]);
        i = i + 1;
    }
    Ok(Some(apps))
}

} // verus!
