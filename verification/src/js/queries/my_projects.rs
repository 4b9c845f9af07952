//! The projects a user created or invested in.

use vstd::prelude::*;
use crate::js::queries::my_daos::{bool_text, bool_to_string};
use crate::text::concat_str;

verus! {

/// A project that a user created or invested in: its id (as text), its
/// name, and which of the two the user did.
#[derive(Debug, Clone, PartialEq, Eq)]
pub struct MyStoredProject {
    pub project_id: String,
    pub name: String,
    pub created_by_me: bool,
    pub invested_by_me: bool,
}

/// A project of the user in the form the frontend reads.
#[derive(Debug, Clone, PartialEq, Eq)]
pub struct MyProjectJs {
    pub url_rel: String,
    pub name: String,
    pub created_by_me: String,
    pub invested_by_me: String,
}

impl MyProjectJs {
    /// The frontend form of a project of the user: its relative URL is `/`
    /// and its id; the flags are written as `true` or `false`.
    pub fn from(p: MyStoredProject) -> (js: MyProjectJs)
        ensures
            js.url_rel@ == "/"@ + p.project_id@,
            js.name@ == p.name@,
            js.created_by_me@ == bool_text(p.created_by_me),
            js.invested_by_me@ == bool_text(p.invested_by_me),
    {
        MyProjectJs {
            url_rel: concat_str("/", p.project_id.as_str()),
            name: p.name,
            created_by_me: bool_to_string(p.created_by_me),
            invested_by_me: bool_to_string(p.invested_by_me),
        }
    }
}

} // verus!
