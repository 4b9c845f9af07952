//! Whether a DAO's app can be updated to newer versions of its programs.

use vstd::prelude::*;
use crate::number_text::{dec_digits, u32_to_string};

verus! {

/// The version of a program.
#[derive(Debug, Clone, Copy, PartialEq, Eq)]
pub struct Version(pub u32);

/// The versions an app can be updated to.
#[derive(Debug, Clone, Copy, PartialEq, Eq)]
pub struct UpdateData {
    pub new_approval_version: Version,
    pub new_clear_version: Version,
}

/// The versions to update to, as the frontend reads them.
#[derive(Debug, Clone, PartialEq, Eq)]
pub struct UpdateDataJs {
    pub new_approval_version: String,
    pub new_clear_version: String,
}

/// The versions of a DAO's app and those it can be updated to, as the
/// frontend reads them; `update_data` is set where there is an update.
#[derive(Debug, Clone, PartialEq, Eq)]
pub struct CheckForUpdatesResJs {
    pub current_approval_version: String,
    pub current_clear_version: String,
    pub update_data: Option<UpdateDataJs>,
}

/// The frontend form of the versions to update to.
pub fn update_data_to_js(data: UpdateData) -> (js: UpdateDataJs)
    ensures
        js.new_approval_version@ == dec_digits(data.new_approval_version.0 as nat),
        js.new_clear_version@ == dec_digits(data.new_clear_version.0 as nat),
{
    UpdateDataJs {
        new_approval_version: u32_to_string(data.new_approval_version.0),
        new_clear_version: u32_to_string(data.new_clear_version.0),
    }
}

/// Whether an update is due: one of the latest versions is newer than the
/// app's.
pub open spec fn update_due(
    current_approval: Version,
    current_clear: Version,
    last_approval: Version,
    last_clear: Version,
) -> bool {
    last_approval.0 > current_approval.0 || last_clear.0 > current_clear.0
}

/// What the frontend is told of the app's versions: the current ones, and,
/// where one of the latest versions is newer than the app's, the latest
/// ones to update to.
pub fn check_for_updates(
    current_approval: Version,
    current_clear: Version,
    last_approval: Version,
    last_clear: Version,
) -> (js: CheckForUpdatesResJs)
    ensures
        js.current_approval_version@ == dec_digits(current_approval.0 as nat),
        js.current_clear_version@ == dec_digits(current_clear.0 as nat),
        js.update_data is Some <==> (last_approval.0 > current_approval.0 || last_clear.0
            > current_clear.0),
        js.update_data is Some <==> update_due(
            current_approval,
            current_clear,
            last_approval,
            last_clear,
        ),
        js.update_data matches Some(data) ==> data.new_approval_version@ == dec_digits(
            last_approval.0 as nat,
        ) && data.new_clear_version@ == dec_digits(last_clear.0 as nat),
{
    let update_data = if last_approval.0 > current_approval.0 || last_clear.0 > current_clear.0 {
        Some(UpdateData { new_approval_version: last_approval, new_clear_version: last_clear })
    } else {
        None
    };
    CheckForUpdatesResJs {
        current_approval_version: u32_to_string(current_approval.0),
        current_clear_version: u32_to_string(current_clear.0),
        update_data: match update_data {
            Some(d) => Some(update_data_to_js(d)),
            None => None,
        },
    }
}

/// Once the app runs the latest versions, no update is due; and an update
/// is due only where some latest version is newer than the app's, never to
/// go back to an older one.
pub proof fn law_update_due_only_for_newer(
    current_approval: Version,
    current_clear: Version,
    last_approval: Version,
    last_clear: Version,
)
    ensures
        !update_due(last_approval, last_clear, last_approval, last_clear),
        last_approval.0 <= current_approval.0 && last_clear.0 <= current_clear.0 ==> !update_due(
            current_approval,
            current_clear,
            last_approval,
            last_clear,
        ),
{
}

/// An update is due exactly when the latest approval program or the latest
/// clear program is newer than the app's: a newer version of either one is
/// enough, and neither being newer means no update.
pub proof fn law_update_due_iff_either_is_newer(
    current_approval: Version,
    current_clear: Version,
    last_approval: Version,
    last_clear: Version,
)
    ensures
        update_due(current_approval, current_clear, last_approval, last_clear) <==> (
        last_approval.0 > current_approval.0 || last_clear.0 > current_clear.0),
        last_clear.0 > current_clear.0 ==> update_due(
            current_approval,
            current_clear,
            last_approval,
            last_clear,
        ),
        last_approval.0 > current_approval.0 ==> update_due(
            current_approval,
            current_clear,
            last_approval,
            last_clear,
        ),
{
}

} // verus!
