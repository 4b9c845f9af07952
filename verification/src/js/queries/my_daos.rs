//! The DAOs a user created or invested in.

use vstd::prelude::*;
use crate::text::concat_str;

verus! {

/// A DAO that a user created or invested in: its id (as text), its name,
/// and which of the two the user did.
#[derive(Debug, Clone, PartialEq, Eq)]
pub struct MyStoredDao {
    pub dao_id: String,
    pub name: String,
    pub created_by_me: bool,
    pub invested_by_me: bool,
}

/// A DAO of the user in the form the frontend reads.
#[derive(Debug, Clone, PartialEq, Eq)]
pub struct MyDaoJs {
    pub url_rel: String,
    pub name: String,
    pub created_by_me: String,
    pub invested_by_me: String,
}

/// The text of a `bool` (`b.to_string()`).
pub open spec fn bool_text(b: bool) -> Seq<char> {
    if b {
        "true"@
    } else {
        "false"@
    }
}

/// `b.to_string()`.
pub fn bool_to_string(b: bool) -> (s: String)
    ensures
        s@ == bool_text(b),
{
    if b {
        "true".to_owned()
    } else {
        "false".to_owned()
    }
}

impl MyDaoJs {
    /// The frontend form of a DAO of the user: its relative URL is `/` and
    /// its id; the flags are written as `true` or `false`.
    pub fn from(p: MyStoredDao) -> (js: MyDaoJs)
        ensures
            js.url_rel@ == "/"@ + p.dao_id@,
            js.name@ == p.name@,
            js.created_by_me@ == bool_text(p.created_by_me),
            js.invested_by_me@ == bool_text(p.invested_by_me),
    {
        MyDaoJs {
            url_rel: concat_str("/", p.dao_id.as_str()),
            name: p.name,
            created_by_me: bool_to_string(p.created_by_me),
            invested_by_me: bool_to_string(p.invested_by_me),
        }
    }
}

} // verus!
