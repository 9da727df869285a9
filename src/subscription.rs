//! Subscription groups.
use vstd::prelude::*;
use crate::table::UserTable;

verus! {

/// A group of users who receive notices together.
#[derive(Debug)]
pub struct Subscription {
    /// Chat the group is bound to, when the bot was added to one.
    pub id: Option<String>,
    pub title: String,
    /// Members keyed by their id text.
    pub members: UserTable,
}

} // verus!
